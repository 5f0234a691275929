//! The flattened device tree that describes the guest's platform to its kernel.

use vstd::prelude::*;
use vstd::string::StringExecFns;

use vm_fdt::{FdtWriter, FdtWriterNode};

use crate::bytes;
use crate::text;
use crate::text::render;

verus! {

broadcast use vstd::string::group_string_axioms;

// --- What the writer does ------------------------------------------------------

/// A part of a device tree: `Some((name, None))` begins a node, `Some((name,
/// Some(value)))` is a property of the innermost node, and `None` ends that node.
pub type FdtPart = Option<(Seq<char>, Option<Seq<u8>>)>;

/// The beginning of a node.
pub open spec fn begin(name: Seq<char>) -> FdtPart {
    Some((name, None))
}

/// A property.
pub open spec fn property(name: Seq<char>, value: Seq<u8>) -> FdtPart {
    Some((name, Some(value)))
}

/// The end of a node.
pub open spec fn end() -> FdtPart {
    None
}

/// The number of nodes that are open after the given parts.
pub open spec fn depth(parts: Seq<FdtPart>) -> int
    decreases parts.len(),
{
    if parts.len() == 0 {
        0
    } else {
        let before = depth(parts.drop_last());
        match parts.last() {
            Some((_, None)) => before + 1,
            Some((_, Some(_))) => before,
            None => before - 1,
        }
    }
}

/// The deepest nesting of nodes.
pub const MAX_DEPTH: usize = 64;

/// The longest name of a node (without its unit address) and of a property.
pub const MAX_NAME: usize = 31;

/// A number of parts that keeps the names of the properties well below 4 GiB.
pub const MAX_PARTS: usize = 0x400_0000;

/// Whether a character is allowed in the name of a node.
pub open spec fn is_node_char(c: char) -> bool {
    ||| 'a' <= c <= 'z'
    ||| 'A' <= c <= 'Z'
    ||| '0' <= c <= '9'
    ||| c == ','
    ||| c == '.'
    ||| c == '_'
    ||| c == '+'
    ||| c == '-'
}

/// Whether all characters of a text are allowed in the name of a node.
pub open spec fn is_plain(text: Seq<char>) -> bool {
    forall|i: int| 0 <= i < text.len() ==> is_node_char(#[trigger] text[i])
}

/// Whether a text is the name of a node, without a unit address: it starts with a
/// letter and is not too long.
pub open spec fn is_base_name(text: Seq<char>) -> bool {
    &&& 0 < text.len() <= MAX_NAME
    &&& 'a' <= text[0] <= 'z' || 'A' <= text[0] <= 'Z'
    &&& is_plain(text)
}

/// Whether a text is the name of a node: nothing, a base name, or a base name, an at
/// sign and a unit address.
pub open spec fn is_node_name(text: Seq<char>) -> bool {
    ||| text.len() == 0
    ||| is_base_name(text)
    ||| exists|k: int|
        0 <= k < text.len() && #[trigger] text[k] == '@' && is_base_name(text.take(k)) && is_plain(
            text.skip(k + 1),
        )
}

/// Whether a text is the name of a property.
pub open spec fn is_property_name(text: Seq<char>) -> bool {
    &&& 0 < text.len() <= MAX_NAME
    &&& forall|i: int|
        0 <= i < text.len() ==> is_node_char(#[trigger] text[i]) || text[i] == '?' || text[i] == '#'
}

/// Whether a text can be a C string.
pub open spec fn has_no_nul(text: Seq<char>) -> bool {
    forall|i: int| 0 <= i < text.len() ==> #[trigger] text[i] != '\0'
}

/// A text as a C string.
pub open spec fn c_string(text: Seq<char>) -> Seq<u8> {
    vstd::utf8::encode_utf8(text).push(0)
}

/// The 64-bit cells of a property, big-endian one after another.
pub open spec fn cells(values: Seq<u64>) -> Seq<u8>
    decreases values.len(),
{
    if values.len() == 0 {
        Seq::empty()
    } else {
        cells(values.drop_last()) + bytes::be_bytes(values.last() as nat, 8)
    }
}

/// More than what a part takes in the blob.
pub open spec fn part_size(part: FdtPart) -> nat {
    match part {
        Some((name, None)) => 8 + 4 * name.len(),
        Some((name, Some(value))) => 16 + 4 * name.len() + value.len(),
        None => 4,
    }
}

/// More than what the parts take in the blob, with its header.
pub open spec fn size_bound(parts: Seq<FdtPart>) -> nat
    decreases parts.len(),
{
    if parts.len() == 0 {
        60
    } else {
        size_bound(parts.drop_last()) + part_size(parts.last())
    }
}

/// Whether a property can be added after the given parts: to a node that is open and
/// has no child yet.
pub open spec fn takes_property(parts: Seq<FdtPart>) -> bool {
    &&& depth(parts) > 0
    &&& parts.len() > 0
    &&& parts.last() is Some
}

/// The device-tree writer of `vm_fdt`.
#[verifier::external_type_specification]
#[verifier::external_body]
pub struct ExFdtWriter(FdtWriter);

/// The handle of `vm_fdt` to an open node.
#[verifier::external_type_specification]
#[verifier::external_body]
pub struct ExFdtWriterNode(FdtWriterNode);

/// The error of `vm_fdt`.
#[verifier::external_type_specification]
#[verifier::external_body]
pub struct ExError(vm_fdt::Error);

/// The parts that a writer has been given.
pub uninterp spec fn written(writer: FdtWriter) -> Seq<FdtPart>;

/// The depth of the node that a handle is for.
pub uninterp spec fn handle_depth(node: FdtWriterNode) -> int;

/// The number of an error among the variants of `vm_fdt::Error`.
pub uninterp spec fn error_number(error: vm_fdt::Error) -> u8;

/// The blob that `FdtWriter::finish` makes of the given parts.
pub uninterp spec fn blob(parts: Seq<FdtPart>) -> Seq<u8>;

/// The number of `vm_fdt::Error::PropertyValueTooLarge`.
pub const PROPERTY_VALUE_TOO_LARGE: u8 = 2;

/// The number of `vm_fdt::Error::TotalSizeTooLarge`.
pub const TOTAL_SIZE_TOO_LARGE: u8 = 3;

/// The number of `vm_fdt::Error::InvalidString`.
pub const INVALID_STRING: u8 = 4;

/// The number of a `vm_fdt::Error`, by its position among the variants.
#[verifier::external_body]
fn number_of(error: vm_fdt::Error) -> (number: u8)
    ensures
        number == error_number(error),
{
    error as u8
}

/// `FdtWriter::new` of `vm_fdt`: a writer that has been given nothing. It does not
/// fail.
#[verifier::external_body]
fn new_writer() -> (writer: Result<FdtWriter, vm_fdt::Error>)
    ensures
        writer is Ok,
        written(writer->Ok_0).len() == 0,
{
    FdtWriter::new()
}

/// `FdtWriter::begin_node` of `vm_fdt`: begins a node, unless too many are open or the
/// name is not that of a node. A failure leaves the writer as it was.
#[verifier::external_body]
fn begin_node(writer: &mut FdtWriter, name: &str) -> (node: Result<FdtWriterNode, vm_fdt::Error>)
    ensures
        depth(written(*old(writer))) < MAX_DEPTH && is_node_name(name@) ==> {
            &&& node matches Ok(n) && handle_depth(n) == depth(written(*old(writer))) + 1
            &&& written(*final(writer)) == written(*old(writer)).push(begin(name@))
        },
        !(depth(written(*old(writer))) < MAX_DEPTH && is_node_name(name@)) ==> {
            &&& node is Err
            &&& written(*final(writer)) == written(*old(writer))
        },
{
    writer.begin_node(name)
}

/// `FdtWriter::end_node` of `vm_fdt`: ends the innermost open node, if the handle is
/// that of it. A failure leaves the writer as it was.
#[verifier::external_body]
fn end_node(writer: &mut FdtWriter, node: FdtWriterNode) -> (done: Result<(), vm_fdt::Error>)
    ensures
        handle_depth(node) == depth(written(*old(writer))) ==> {
            &&& done is Ok
            &&& written(*final(writer)) == written(*old(writer)).push(end())
        },
        handle_depth(node) != depth(written(*old(writer))) ==> {
            &&& done is Err
            &&& written(*final(writer)) == written(*old(writer))
        },
{
    writer.end_node(node)
}

/// `FdtWriter::property_string` of `vm_fdt`: adds a text as a C string. A text with a
/// NUL is an `InvalidString`. It fails where no property can be added or the name is not
/// that of one; elsewhere, a value whose size does not fit in 32 bits is a
/// `PropertyValueTooLarge`, and with one that does only the size of all names can stand
/// in the way, which it does not before there are very many. A failure leaves the writer
/// as it was.
#[verifier::external_body]
fn property_string(writer: &mut FdtWriter, name: &str, value: &str) -> (done: Result<
    (),
    vm_fdt::Error,
>)
    ensures
        !has_no_nul(value@) ==> done is Err && error_number(done->Err_0) == INVALID_STRING,
        has_no_nul(value@) && takes_property(written(*old(writer))) && is_property_name(name@)
            && c_string(value@).len() > u32::MAX ==> done is Err && error_number(done->Err_0)
            == PROPERTY_VALUE_TOO_LARGE,
        has_no_nul(value@) && takes_property(written(*old(writer))) && is_property_name(name@)
            && c_string(value@).len() <= u32::MAX ==> {
            &&& done matches Err(e) ==> error_number(e) == TOTAL_SIZE_TOO_LARGE
            &&& written(*old(writer)).len() < MAX_PARTS ==> done is Ok
        },
        done is Ok ==> takes_property(written(*old(writer))) && is_property_name(name@),
        done is Ok ==> written(*final(writer)) == written(*old(writer)).push(
            property(name@, c_string(value@)),
        ),
        done is Err ==> written(*final(writer)) == written(*old(writer)),
{
    writer.property_string(name, value)
}

/// `FdtWriter::property_u32` of `vm_fdt`: adds a 32-bit cell, big-endian. It fails as
/// `FdtWriter::property_string` does, save that the value is always a good one.
#[verifier::external_body]
fn property_u32(writer: &mut FdtWriter, name: &str, value: u32) -> (done: Result<
    (),
    vm_fdt::Error,
>)
    ensures
        takes_property(written(*old(writer))) && is_property_name(name@) ==> {
            &&& done matches Err(e) ==> error_number(e) == TOTAL_SIZE_TOO_LARGE
            &&& written(*old(writer)).len() < MAX_PARTS ==> done is Ok
        },
        done is Ok ==> takes_property(written(*old(writer))) && is_property_name(name@),
        done is Ok ==> written(*final(writer)) == written(*old(writer)).push(
            property(name@, bytes::be_bytes(value as nat, 4)),
        ),
        done is Err ==> written(*final(writer)) == written(*old(writer)),
{
    writer.property_u32(name, value)
}

/// `FdtWriter::property_array_u64` of `vm_fdt`: adds 64-bit cells, big-endian. It fails
/// as `FdtWriter::property_string` does, save that the values are always good ones.
#[verifier::external_body]
fn property_array_u64(writer: &mut FdtWriter, name: &str, values: &[u64]) -> (done: Result<
    (),
    vm_fdt::Error,
>)
    ensures
        takes_property(written(*old(writer))) && is_property_name(name@) && 8 * values@.len()
            <= u32::MAX ==> {
            &&& done matches Err(e) ==> error_number(e) == TOTAL_SIZE_TOO_LARGE
            &&& written(*old(writer)).len() < MAX_PARTS ==> done is Ok
        },
        done is Ok ==> takes_property(written(*old(writer))) && is_property_name(name@),
        done is Ok ==> written(*final(writer)) == written(*old(writer)).push(
            property(name@, cells(values@)),
        ),
        done is Err ==> written(*final(writer)) == written(*old(writer)),
{
    writer.property_array_u64(name, values)
}

/// `FdtWriter::finish` of `vm_fdt`: makes the blob, which depends on the parts that the
/// writer has been given only and is not longer than what they can take. With no node
/// open, it fails only if the blob would not fit in 32 bits.
#[verifier::external_body]
fn finish_writer(writer: FdtWriter) -> (made: Result<Vec<u8>, vm_fdt::Error>)
    ensures
        made matches Ok(b) ==> b@ == blob(written(writer)) && depth(written(writer)) == 0,
        made matches Ok(b) ==> b@.len() <= size_bound(written(writer)),
        depth(written(writer)) == 0 ==> {
            &&& made matches Err(e) ==> error_number(e) == TOTAL_SIZE_TOO_LARGE
            &&& size_bound(written(writer)) <= u32::MAX ==> made is Ok
        },
{
    writer.finish()
}

// --- The device tree ---------------------------------------------------------------

/// What can go wrong while a device tree is made.
#[derive(Debug, Clone, Copy, PartialEq, Eq, Structural)]
pub enum FdtError {
    /// A text has a NUL in it.
    InvalidString,
    /// The size of a property does not fit in 32 bits.
    PropertyValueTooLarge,
    /// The size of the device tree does not fit in 32 bits.
    TotalSizeTooLarge,
    /// The writer was used in a wrong way.
    Rejected,
}

/// The error that a number stands for.
pub open spec fn error_of(number: u8) -> FdtError {
    if number == INVALID_STRING {
        FdtError::InvalidString
    } else if number == PROPERTY_VALUE_TOO_LARGE {
        FdtError::PropertyValueTooLarge
    } else if number == TOTAL_SIZE_TOO_LARGE {
        FdtError::TotalSizeTooLarge
    } else {
        FdtError::Rejected
    }
}

/// Maps an error of the writer.
fn fdt_error(error: vm_fdt::Error) -> (mapped: FdtError)
    ensures
        mapped == error_of(error_number(error)),
{
    let number = number_of(error);
    if number == INVALID_STRING {
        FdtError::InvalidString
    } else if number == PROPERTY_VALUE_TOO_LARGE {
        FdtError::PropertyValueTooLarge
    } else if number == TOTAL_SIZE_TOO_LARGE {
        FdtError::TotalSizeTooLarge
    } else {
        FdtError::Rejected
    }
}

/// A device tree in the making.
pub struct Fdt {
    writer: FdtWriter,
    root_node: FdtWriterNode,
    bootargs: Option<String>,
}

/// What a device tree consists of so far.
pub struct FdtState {
    pub parts: Seq<FdtPart>,
    /// The kernel's command line, if it is given one.
    pub bootargs: Option<Seq<char>>,
}

impl View for Fdt {
    type V = FdtState;

    closed spec fn view(&self) -> FdtState {
        FdtState {
            parts: written(self.writer),
            bootargs: match self.bootargs {
                Some(bootargs) => Some(bootargs@),
                None => None,
            },
        }
    }
}

/// The parts that every device tree starts with: the root node and its properties.
pub open spec fn root_parts(platform: Seq<char>) -> Seq<FdtPart> {
    seq![
        begin(""@),
        property("compatible"@, c_string("hermit,"@ + platform)),
        property("#address-cells"@, bytes::be_bytes(2, 4)),
        property("#size-cells"@, bytes::be_bytes(2, 4)),
    ]
}

/// The length of a range of addresses, which wrap.
pub open spec fn length(start: u64, end_address: u64) -> u64 {
    ((end_address - start) % 0x1_0000_0000_0000_0000) as u64
}

/// The parts that describe a range of memory.
pub open spec fn memory_parts(start: u64, end_address: u64) -> Seq<FdtPart> {
    seq![
        begin("memory@"@ + text::digits(start as nat, 16)),
        property("device_type"@, c_string("memory"@)),
        property("reg"@, cells(seq![start, length(start, end_address)])),
        end(),
    ]
}

/// The parts that say where the ACPI root pointer is.
pub open spec fn rsdp_parts(rsdp: u64) -> Seq<FdtPart> {
    seq![
        begin("hermit,rsdp@"@ + text::digits(rsdp as nat, 16)),
        property("reg"@, cells(seq![rsdp, 1])),
        end(),
    ]
}

/// The parts that every device tree ends with: the node with the command line, and the
/// end of the root node.
pub open spec fn final_parts(bootargs: Option<Seq<char>>) -> Seq<FdtPart> {
    match bootargs {
        Some(bootargs) => seq![
            begin("chosen"@),
            property("bootargs"@, c_string(bootargs)),
            end(),
            end(),
        ],
        None => seq![begin("chosen"@), end(), end()],
    }
}

/// The names of the properties are names of properties.
proof fn lemma_property_names()
    ensures
        is_property_name("compatible"@),
        is_property_name("#address-cells"@),
        is_property_name("#size-cells"@),
        is_property_name("device_type"@),
        is_property_name("reg"@),
        is_property_name("bootargs"@),
{
    reveal_strlit("compatible");
    reveal_strlit("#address-cells");
    reveal_strlit("#size-cells");
    reveal_strlit("device_type");
    reveal_strlit("reg");
    reveal_strlit("bootargs");
    assert("compatible"@ =~= seq!['c', 'o', 'm', 'p', 'a', 't', 'i', 'b', 'l', 'e']);
    assert("#address-cells"@ =~= seq![
        '#',
        'a',
        'd',
        'd',
        'r',
        'e',
        's',
        's',
        '-',
        'c',
        'e',
        'l',
        'l',
        's',
    ]);
    assert("#size-cells"@ =~= seq!['#', 's', 'i', 'z', 'e', '-', 'c', 'e', 'l', 'l', 's']);
    assert("device_type"@ =~= seq!['d', 'e', 'v', 'i', 'c', 'e', '_', 't', 'y', 'p', 'e']);
    assert("reg"@ =~= seq!['r', 'e', 'g']);
    assert("bootargs"@ =~= seq!['b', 'o', 'o', 't', 'a', 'r', 'g', 's']);
}

/// One more part.
proof fn lemma_depth(parts: Seq<FdtPart>, part: FdtPart)
    ensures
        depth(parts.push(part)) == depth(parts) + (match part {
            Some((_, None)) => 1int,
            Some((_, Some(_))) => 0,
            None => -1,
        }),
        parts.push(part).last() == part,
{
    assert(parts.push(part).drop_last() =~= parts);
}

impl Fdt {
    /// What holds of every device tree in the making: exactly the root node is open.
    pub closed spec fn wf(&self) -> bool {
        &&& depth(written(self.writer)) == 1
        &&& handle_depth(self.root_node) == 1
    }

    /// Starts a device tree for a platform. A name with a NUL in it is an
    /// `InvalidString`, one that does not fit in a property a `PropertyValueTooLarge`.
    pub fn new(platform: &str) -> (fdt: Result<Self, FdtError>)
        ensures
            !has_no_nul(platform@) ==> (fdt matches Err(e) && e == FdtError::InvalidString),
            has_no_nul(platform@) && c_string("hermit,"@ + platform@).len() > u32::MAX ==> (
            fdt matches Err(e) && e == FdtError::PropertyValueTooLarge),
            has_no_nul(platform@) && c_string("hermit,"@ + platform@).len() <= u32::MAX ==> (
            fdt matches Ok(f) && f.wf() && f@ == (FdtState {
                parts: root_parts(platform@),
                bootargs: None,
            })),
    {
        let mut writer = match new_writer() {
            Ok(writer) => writer,
            Err(error) => return Err(fdt_error(error)),
        };
        let ghost none = written(writer);
        proof {
            assert(none =~= Seq::empty());
            reveal_strlit("");
            lemma_property_names();
            lemma_no_nul(platform@);
        }
        let root_node = match begin_node(&mut writer, "") {
            Ok(node) => node,
            Err(error) => return Err(fdt_error(error)),
        };
        let ghost one = written(writer);
        let mut compatible = String::from_str("hermit,");
        compatible.append(platform);
        proof {
            lemma_depth(none, begin(""@));
        }
        match property_string(&mut writer, "compatible", compatible.as_str()) {
            Ok(()) => {},
            Err(error) => return Err(fdt_error(error)),
        }
        let ghost two = written(writer);
        let ghost cell = bytes::be_bytes(2, 4);
        proof {
            lemma_depth(one, property("compatible"@, c_string(compatible@)));
        }
        match property_u32(&mut writer, "#address-cells", 0x2) {
            Ok(()) => {},
            Err(error) => return Err(fdt_error(error)),
        }
        let ghost three = written(writer);
        proof {
            lemma_depth(two, property("#address-cells"@, cell));
        }
        match property_u32(&mut writer, "#size-cells", 0x2) {
            Ok(()) => {},
            Err(error) => return Err(fdt_error(error)),
        }
        proof {
            lemma_depth(three, property("#size-cells"@, cell));
            assert(written(writer) =~= root_parts(platform@));
        }
        Ok(Fdt { writer, root_node, bootargs: None })
    }

    /// Describes the guest's memory from `start` up to `end_address`.
    pub fn memory(self, start: u64, end_address: u64) -> (fdt: Result<Self, FdtError>)
        requires
            self.wf(),
        ensures
            fdt matches Ok(f) ==> f.wf() && f@ == (FdtState {
                parts: self@.parts + memory_parts(start, end_address),
                ..self@
            }),
            fdt matches Err(e) ==> e == FdtError::TotalSizeTooLarge,
            self@.parts.len() + 4 <= MAX_PARTS ==> fdt is Ok,
    {
        let Fdt { mut writer, root_node, bootargs } = self;
        let ghost none = written(writer);
        let mut name = String::from_str("memory@");
        let address = render(start, 16);
        name.append(address.as_str());
        proof {
            lemma_node_names(start as nat);
            lemma_property_names();
            lemma_depth(none, begin(name@));
        }
        let memory_node = match begin_node(&mut writer, name.as_str()) {
            Ok(node) => node,
            Err(error) => return Err(fdt_error(error)),
        };
        let ghost one = written(writer);
        proof {
            reveal_strlit("memory");
            lemma_utf8_len("memory"@);
            lemma_depth(one, property("device_type"@, c_string("memory"@)));
        }
        match property_string(&mut writer, "device_type", "memory") {
            Ok(()) => {},
            Err(error) => return Err(fdt_error(error)),
        }
        let ghost two = written(writer);
        let values = [start, end_address.wrapping_sub(start)];
        proof {
            assert(values@ =~= seq![start, length(start, end_address)]);
            lemma_depth(two, property("reg"@, cells(values@)));
        }
        match property_array_u64(&mut writer, "reg", &values) {
            Ok(()) => {},
            Err(error) => return Err(fdt_error(error)),
        }
        let ghost three = written(writer);
        proof {
            lemma_depth(three, end());
        }
        match end_node(&mut writer, memory_node) {
            Ok(()) => {},
            Err(error) => return Err(fdt_error(error)),
        }
        assert(written(writer) =~= none + memory_parts(start, end_address));
        Ok(Fdt { writer, root_node, bootargs })
    }

    /// Says where the ACPI root pointer is.
    pub fn rsdp(self, rsdp: u64) -> (fdt: Result<Self, FdtError>)
        requires
            self.wf(),
        ensures
            fdt matches Ok(f) ==> f.wf() && f@ == (FdtState {
                parts: self@.parts + rsdp_parts(rsdp),
                ..self@
            }),
            fdt matches Err(e) ==> e == FdtError::TotalSizeTooLarge,
            self@.parts.len() + 3 <= MAX_PARTS ==> fdt is Ok,
    {
        let Fdt { mut writer, root_node, bootargs } = self;
        let ghost none = written(writer);
        let mut name = String::from_str("hermit,rsdp@");
        let address = render(rsdp, 16);
        name.append(address.as_str());
        proof {
            lemma_node_names(rsdp as nat);
            lemma_property_names();
            lemma_depth(none, begin(name@));
        }
        let rsdp_node = match begin_node(&mut writer, name.as_str()) {
            Ok(node) => node,
            Err(error) => return Err(fdt_error(error)),
        };
        let ghost one = written(writer);
        let values = [rsdp, 1];
        proof {
            assert(values@ =~= seq![rsdp, 1]);
            lemma_depth(one, property("reg"@, cells(values@)));
        }
        match property_array_u64(&mut writer, "reg", &values) {
            Ok(()) => {},
            Err(error) => return Err(fdt_error(error)),
        }
        let ghost two = written(writer);
        proof {
            lemma_depth(two, end());
        }
        match end_node(&mut writer, rsdp_node) {
            Ok(()) => {},
            Err(error) => return Err(fdt_error(error)),
        }
        assert(written(writer) =~= none + rsdp_parts(rsdp));
        Ok(Fdt { writer, root_node, bootargs })
    }

    /// Completes the device tree and returns the blob.
    pub fn finish(self) -> (made: Result<Vec<u8>, FdtError>)
        requires
            self.wf(),
        ensures
            ({
                let parts = self@.parts + final_parts(self@.bootargs);
                let bad_string = self@.bootargs matches Some(b) && !has_no_nul(b);
                let too_large = self@.bootargs matches Some(b) && c_string(b).len() > u32::MAX;
                &&& made matches Ok(b) ==> b@ == blob(parts) && b@.len() <= size_bound(parts)
                &&& bad_string ==> (made matches Err(e) && e == FdtError::InvalidString)
                &&& !bad_string && too_large ==> (made matches Err(e) && e
                    == FdtError::PropertyValueTooLarge)
                &&& !bad_string && !too_large ==> {
                    &&& made matches Err(e) ==> e == FdtError::TotalSizeTooLarge
                    &&& parts.len() <= MAX_PARTS && size_bound(parts) <= u32::MAX ==> made is Ok
                }
            }),
    {
        let Fdt { mut writer, root_node, bootargs } = self;
        let ghost none = written(writer);
        proof {
            lemma_node_names(0);
            lemma_property_names();
            lemma_depth(none, begin("chosen"@));
        }
        let chosen_node = match begin_node(&mut writer, "chosen") {
            Ok(node) => node,
            Err(error) => return Err(fdt_error(error)),
        };
        if let Some(bootargs) = &bootargs {
            let ghost one = written(writer);
            proof {
                lemma_depth(one, property("bootargs"@, c_string(bootargs@)));
            }
            match property_string(&mut writer, "bootargs", bootargs.as_str()) {
                Ok(()) => {},
                Err(error) => return Err(fdt_error(error)),
            }
        }
        let ghost two = written(writer);
        proof {
            lemma_depth(two, end());
            lemma_depth(two.push(end()), end());
        }
        match end_node(&mut writer, chosen_node) {
            Ok(()) => {},
            Err(error) => return Err(fdt_error(error)),
        }
        match end_node(&mut writer, root_node) {
            Ok(()) => {},
            Err(error) => return Err(fdt_error(error)),
        }
        assert(written(writer) =~= none + final_parts(self@.bootargs));
        match finish_writer(writer) {
            Ok(made) => Ok(made),
            Err(error) => Err(fdt_error(error)),
        }
    }
}

/// A character takes at most four bytes.
proof fn lemma_utf8_len(text: Seq<char>)
    ensures
        vstd::utf8::encode_utf8(text).len() <= 4 * text.len(),
    decreases text.len(),
{
    if text.len() > 0 {
        lemma_utf8_len(text.drop_first());
    }
}

/// Hexadecimal digits are allowed in the name of a node.
proof fn lemma_digits_are_plain(value: nat)
    ensures
        is_plain(text::digits(value, 16)),
    decreases value,
{
    let all = text::digits(value, 16);
    if value >= 16 {
        lemma_digits_are_plain(value / 16);
        let before = text::digits(value / 16, 16);
        assert forall|i: int| 0 <= i < all.len() implies is_node_char(#[trigger] all[i]) by {
            if i < before.len() {
                assert(all[i] == before[i]);
            }
        }
    }
}

/// The names of the nodes are names of nodes.
proof fn lemma_node_names(value: nat)
    ensures
        is_node_name("memory@"@ + text::digits(value, 16)),
        is_node_name("hermit,rsdp@"@ + text::digits(value, 16)),
        is_node_name("chosen"@),
{
    let unit = text::digits(value, 16);
    lemma_digits_are_plain(value);
    reveal_strlit("memory@");
    reveal_strlit("hermit,rsdp@");
    reveal_strlit("chosen");
    assert("memory@"@ =~= seq!['m', 'e', 'm', 'o', 'r', 'y', '@']);
    assert("hermit,rsdp@"@ =~= seq![
        'h',
        'e',
        'r',
        'm',
        'i',
        't',
        ',',
        'r',
        's',
        'd',
        'p',
        '@',
    ]);
    assert("chosen"@ =~= seq!['c', 'h', 'o', 's', 'e', 'n']);
    let memory = "memory@"@ + unit;
    assert(memory[6] == '@');
    assert(memory.take(6) =~= seq!['m', 'e', 'm', 'o', 'r', 'y']);
    assert(memory.skip(7) =~= unit);
    let rsdp = "hermit,rsdp@"@ + unit;
    assert(rsdp[11] == '@');
    assert(rsdp.take(11) =~= seq!['h', 'e', 'r', 'm', 'i', 't', ',', 'r', 's', 'd', 'p']);
    assert(rsdp.skip(12) =~= unit);
}

/// Putting a text after "hermit," adds no NUL and takes none away.
proof fn lemma_no_nul(platform: Seq<char>)
    ensures
        has_no_nul("hermit,"@ + platform) == has_no_nul(platform),
{
    reveal_strlit("hermit,");
    let whole = "hermit,"@ + platform;
    if has_no_nul(whole) {
        assert forall|i: int| 0 <= i < platform.len() implies #[trigger] platform[i] != '\0' by {
            assert(whole[i + 7] == platform[i]);
        }
    }
}

/// The device tree of a guest with memory from zero up to `size`.
pub open spec fn guest_parts(size: u64) -> Seq<FdtPart> {
    root_parts("uhyve"@) + memory_parts(0, size) + final_parts(None)
}

/// The device tree of a guest is not longer than this.
pub const MAX_GUEST_TREE: usize = 0x1000;

/// Makes the device tree of a guest with memory from zero up to `size`.
pub fn guest_fdt(size: u64) -> (made: Result<Vec<u8>, FdtError>)
    ensures
        made matches Ok(b) && b@ == blob(guest_parts(size)) && b@.len() <= MAX_GUEST_TREE,
{
    proof {
        reveal_strlit("uhyve");
        reveal_strlit("hermit,");
        lemma_utf8_len("hermit,"@ + "uhyve"@);
        lemma_guest_size(size);
    }
    let fdt = match Fdt::new("uhyve") {
        Ok(fdt) => fdt,
        Err(error) => return Err(error),
    };
    match fdt.memory(0, size) {
        Ok(fdt) => fdt.finish(),
        Err(error) => Err(error),
    }
}

/// The device tree of a guest is small.
proof fn lemma_guest_size(size: u64)
    ensures
        size_bound(guest_parts(size)) <= MAX_GUEST_TREE,
{
    reveal_strlit("");
    reveal_strlit("uhyve");
    reveal_strlit("hermit,");
    reveal_strlit("compatible");
    reveal_strlit("#address-cells");
    reveal_strlit("#size-cells");
    reveal_strlit("memory");
    reveal_strlit("memory@");
    reveal_strlit("device_type");
    reveal_strlit("reg");
    reveal_strlit("chosen");
    let parts = guest_parts(size);
    lemma_utf8_len("hermit,"@ + "uhyve"@);
    lemma_utf8_len("memory"@);
    lemma_be_len(2, 4);
    lemma_cells_len(seq![0, length(0, size)]);
    assert(text::digits(0, 16).len() == 1);
    assert forall|k: int| 0 <= k < 11 implies part_size(#[trigger] parts[k]) <= 200 by {}
    lemma_size_bound(parts, 11, 200);
    assert(parts.take(11) =~= parts);
}

/// Parts that are small make a small device tree.
proof fn lemma_size_bound(parts: Seq<FdtPart>, n: nat, limit: nat)
    requires
        n <= parts.len(),
        forall|k: int| 0 <= k < n ==> part_size(#[trigger] parts[k]) <= limit,
    ensures
        size_bound(parts.take(n as int)) <= 60 + n * limit,
    decreases n,
{
    if n > 0 {
        lemma_size_bound(parts, (n - 1) as nat, limit);
        assert(parts.take(n as int).drop_last() =~= parts.take(n - 1));
        assert(n * limit == (n - 1) * limit + limit) by (nonlinear_arith);
    }
}

proof fn lemma_be_len(value: nat, width: nat)
    ensures
        bytes::be_bytes(value, width).len() == width,
    decreases width,
{
    if width > 0 {
        lemma_be_len(value / 256, (width - 1) as nat);
    }
}

proof fn lemma_cells_len(values: Seq<u64>)
    ensures
        cells(values).len() == 8 * values.len(),
    decreases values.len(),
{
    if values.len() > 0 {
        lemma_cells_len(values.drop_last());
        lemma_be_len(values.last() as nat, 8);
    }
}

/// The cells of a property follow one another, eight bytes each, the most significant byte
/// first.
pub proof fn law_cells(values: Seq<u64>, j: int, k: nat)
    requires
        0 <= j < values.len(),
        k < 8,
    ensures
        cells(values).len() == 8 * values.len(),
        cells(values)[8 * j + 7 - k] == values[j] as nat / bytes::weight(k) % 256,
    decreases values.len(),
{
    let rest = values.drop_last();
    lemma_cells_len(values);
    lemma_cells_len(rest);
    bytes::law_representations(values.last() as nat, 8, k);
    if j < rest.len() {
        law_cells(rest, j, k);
        assert(rest[j] == values[j]);
    }
}

/// A range of memory is described by its start and the distance from there to its end,
/// round the end of the address space where the end comes first.
pub proof fn law_length(start: u64, end_address: u64)
    ensures
        start <= end_address ==> length(start, end_address) == end_address - start,
        start > end_address ==> length(start, end_address) == end_address - start
            + 0x1_0000_0000_0000_0000,
{
}

/// What a device tree is made of. It starts with the root node, for a platform of Hermit
/// and with addresses and sizes of two cells; a range of memory and the root pointer are
/// nodes named by their address in hexadecimal; and it ends with the node of the command
/// line, if there is one. Every node that is begun is ended.
pub proof fn law_parts(
    platform: Seq<char>,
    start: u64,
    end_address: u64,
    rsdp: u64,
    bootargs: Seq<char>,
)
    ensures
        root_parts(platform) == seq![
            Some((""@, None)),
            Some(("compatible"@, Some(c_string("hermit,"@ + platform)))),
            Some(("#address-cells"@, Some(seq![0u8, 0, 0, 2]))),
            Some(("#size-cells"@, Some(seq![0u8, 0, 0, 2]))),
        ],
        memory_parts(start, end_address) == seq![
            Some(("memory@"@ + text::digits(start as nat, 16), None)),
            Some(("device_type"@, Some(c_string("memory"@)))),
            Some(("reg"@, Some(cells(seq![start, length(start, end_address)])))),
            None,
        ],
        rsdp_parts(rsdp) == seq![
            Some(("hermit,rsdp@"@ + text::digits(rsdp as nat, 16), None)),
            Some(("reg"@, Some(cells(seq![rsdp, 1u64])))),
            None,
        ],
        final_parts(None) == seq![Some(("chosen"@, None::<Seq<u8>>)), None, None],
        final_parts(Some(bootargs)) == seq![
            Some(("chosen"@, None)),
            Some(("bootargs"@, Some(c_string(bootargs)))),
            None,
            None,
        ],
{
    let two = bytes::be_bytes(2, 4);
    bytes::law_representations(2, 4, 0);
    bytes::law_representations(2, 4, 1);
    bytes::law_representations(2, 4, 2);
    bytes::law_representations(2, 4, 3);
    assert(two =~= seq![0u8, 0, 0, 2]);
}

/// The device tree of a guest is that of the platform "uhyve" with the guest's memory from
/// zero up to its size, and no command line.
pub proof fn law_guest_tree(size: u64)
    ensures
        guest_parts(size) == root_parts("uhyve"@) + memory_parts(0, size) + final_parts(None),
        length(0, size) == size,
        text::digits(0, 16) == seq!['0'],
{
}

/// The errors of the writer that a caller can tell apart: a bad string (4), a value (2)
/// and a tree (3) that is too large. Any other is a wrong use of the writer.
pub proof fn law_errors(number: u8)
    ensures
        error_of(4) == FdtError::InvalidString,
        error_of(2) == FdtError::PropertyValueTooLarge,
        error_of(3) == FdtError::TotalSizeTooLarge,
        number < 2 || number > 4 ==> error_of(number) == FdtError::Rejected,
{
}

} // verus!
