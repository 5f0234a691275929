//! Little-endian fields in byte sequences.
//!
//! Everything the processor or the guest reads (the VMCB, the guest's boot
//! structures, the hypercall parameter blocks) is plain memory holding integers
//! of one to eight bytes at fixed offsets. This module gives such a field its
//! meaning ([`field`]) and the two operations on it ([`read_le`], [`write_le`]).

use vstd::prelude::*;

verus! {

/// The number of distinct values of `width` bytes.
pub open spec fn span(width: nat) -> nat
    decreases width,
{
    if width == 0 {
        1
    } else {
        256 * span((width - 1) as nat)
    }
}

/// The number whose little-endian representation is `bytes`.
pub open spec fn le_value(bytes: Seq<u8>) -> nat
    decreases bytes.len(),
{
    if bytes.len() == 0 {
        0
    } else {
        bytes[0] as nat + 256 * le_value(bytes.drop_first())
    }
}

/// The little-endian representation of `value` in `width` bytes.
pub open spec fn le_bytes(value: nat, width: nat) -> Seq<u8>
    decreases width,
{
    if width == 0 {
        Seq::empty()
    } else {
        seq![(value % 256) as u8] + le_bytes(value / 256, (width - 1) as nat)
    }
}

/// The big-endian representation of `value` in `width` bytes.
pub open spec fn be_bytes(value: nat, width: nat) -> Seq<u8> {
    le_bytes(value, width).reverse()
}

/// The integer held by the `width` bytes of `memory` that start at `offset`.
pub open spec fn field(memory: Seq<u8>, offset: int, width: nat) -> nat {
    le_value(memory.subrange(offset, offset + width))
}

/// `memory` with `bytes` laid over it from `offset` on.
pub open spec fn overlay(memory: Seq<u8>, offset: int, bytes: Seq<u8>) -> Seq<u8> {
    Seq::new(
        memory.len(),
        |i: int|
            if offset <= i < offset + bytes.len() {
                bytes[i - offset]
            } else {
                memory[i]
            },
    )
}

/// Whether `now` differs from `before` in the bytes `from .. to` at most.
pub open spec fn changed_within(before: Seq<u8>, now: Seq<u8>, from: int, to: int) -> bool {
    &&& now.len() == before.len()
    &&& forall|i: int|
        #![trigger now[i]]
        0 <= i < now.len() && (i < from || to <= i) ==> now[i] == before[i]
    &&& forall|o: int, w: nat|
        #![trigger field(now, o, w)]
        0 <= o && o + w <= now.len() && (o + w <= from || to <= o) ==> field(now, o, w)
            == field(before, o, w)
}

/// `span` of the widths in use.
pub proof fn lemma_spans()
    ensures
        span(0) == 1,
        span(1) == 0x100,
        span(2) == 0x1_0000,
        span(4) == 0x1_0000_0000,
        span(8) == 0x1_0000_0000_0000_0000,
{
    reveal_with_fuel(span, 9);
}

/// `span` grows with the width.
proof fn lemma_span_monotonic(a: nat, b: nat)
    requires
        a <= b,
    ensures
        1 <= span(a) <= span(b),
    decreases b,
{
    if a < b {
        lemma_span_monotonic(a, (b - 1) as nat);
    } else if a > 0 {
        lemma_span_monotonic((a - 1) as nat, (a - 1) as nat);
    }
}

/// Encoding a value that fits and decoding it again gives the value back.
pub proof fn lemma_le_round_trip(value: nat, width: nat)
    requires
        value < span(width),
    ensures
        le_bytes(value, width).len() == width,
        le_value(le_bytes(value, width)) == value,
    decreases width,
{
    if width > 0 {
        let rest = le_bytes(value / 256, (width - 1) as nat);
        lemma_le_round_trip(value / 256, (width - 1) as nat);
        assert(le_bytes(value, width).drop_first() =~= rest);
    }
}

/// A field of `width` bytes holds less than `span(width)`, and its bytes are the
/// representation of what it holds.
pub proof fn lemma_le_value_bound(bytes: Seq<u8>)
    ensures
        le_value(bytes) < span(bytes.len()),
        le_bytes(le_value(bytes), bytes.len()) =~= bytes,
    decreases bytes.len(),
{
    if bytes.len() > 0 {
        lemma_le_value_bound(bytes.drop_first());
        let rest = le_value(bytes.drop_first());
        assert((bytes[0] as nat + 256 * rest) % 256 == bytes[0]);
        assert((bytes[0] as nat + 256 * rest) / 256 == rest);
        assert(bytes =~= seq![bytes[0]] + bytes.drop_first());
    }
}

/// A field laid over a memory reads back as the value it was made from.
pub proof fn lemma_field_of_overlay(memory: Seq<u8>, offset: int, value: nat, width: nat)
    requires
        0 <= offset,
        offset + width <= memory.len(),
        value < span(width),
    ensures
        field(overlay(memory, offset, le_bytes(value, width)), offset, width) == value,
{
    lemma_le_round_trip(value, width);
    let laid = overlay(memory, offset, le_bytes(value, width));
    assert(laid.subrange(offset, offset + width) =~= le_bytes(value, width));
}

/// A field is untouched by what is laid over memory outside of it.
pub proof fn lemma_field_beside_overlay(
    memory: Seq<u8>,
    at: int,
    bytes: Seq<u8>,
    offset: int,
    width: nat,
)
    requires
        0 <= offset,
        offset + width <= memory.len(),
        at + bytes.len() <= offset || offset + width <= at,
    ensures
        field(overlay(memory, at, bytes), offset, width) == field(memory, offset, width),
{
    let laid = overlay(memory, at, bytes);
    assert(laid.subrange(offset, offset + width) =~= memory.subrange(offset, offset + width));
}

/// What is laid over memory changes no other part of it.
pub proof fn lemma_overlay_is_local(memory: Seq<u8>, at: int, bytes: Seq<u8>)
    ensures
        changed_within(memory, overlay(memory, at, bytes), at, at + bytes.len()),
{
    let now = overlay(memory, at, bytes);
    assert forall|o: int, w: nat|
        #![trigger field(now, o, w)]
        0 <= o && o + w <= now.len() && (o + w <= at || at + bytes.len() <= o) implies field(
        now,
        o,
        w,
    ) == field(memory, o, w) by {
        lemma_field_beside_overlay(memory, at, bytes, o, w);
    }
}

/// A field of zero bytes holds zero.
pub proof fn lemma_zero_field(memory: Seq<u8>, offset: int, width: nat)
    requires
        0 <= offset,
        offset + width <= memory.len(),
        forall|i: int| offset <= i < offset + width ==> memory[i] == 0,
    ensures
        field(memory, offset, width) == 0,
    decreases width,
{
    if width > 0 {
        lemma_zero_field(memory, offset + 1, (width - 1) as nat);
        assert(memory.subrange(offset, offset + width).drop_first() =~= memory.subrange(
            offset + 1,
            offset + width,
        ));
    }
}

/// Reads the integer in the `width` bytes of `memory` from `offset` on.
pub fn read_le(memory: &[u8], offset: usize, width: usize) -> (value: u64)
    requires
        width <= 8,
        offset + width <= memory@.len(),
    ensures
        value == field(memory@, offset as int, width as nat),
{
    let length: usize = memory.len();
    let mut value: u64 = 0;
    let mut left: usize = width;
    proof {
        assert(memory@.subrange((offset + width) as int, (offset + width) as int).len() == 0);
        lemma_spans();
    }
    while left > 0
        invariant
            left <= width <= 8,
            offset + width <= memory@.len() == length,
            value == field(memory@, offset + left, (width - left) as nat),
            value < span((width - left) as nat),
        decreases left,
    {
        proof {
            let tail = memory@.subrange((offset + left - 1) as int, (offset + width) as int);
            assert(tail.drop_first() =~= memory@.subrange(
                (offset + left) as int,
                (offset + width) as int,
            ));
            lemma_le_value_bound(tail);
            lemma_span_monotonic((width - left + 1) as nat, 8);
            lemma_spans();
        }
        left = left - 1;
        value = memory[offset + left] as u64 + 256 * value;
    }
    value
}

/// Writes `value` into the `width` bytes of `memory` from `offset` on and leaves
/// every other byte as it was.
pub fn write_le(memory: &mut [u8], offset: usize, width: usize, value: u64)
    requires
        offset + width <= old(memory)@.len(),
        value < span(width as nat),
    ensures
        final(memory)@ == overlay(old(memory)@, offset as int, le_bytes(value as nat, width as nat)),
        field(final(memory)@, offset as int, width as nat) == value,
        changed_within(old(memory)@, final(memory)@, offset as int, offset + width),
{
    let length: usize = memory.len();
    let ghost before = memory@;
    let ghost bytes = le_bytes(value as nat, width as nat);
    let mut rest: u64 = value;
    let mut done: usize = 0;
    proof {
        lemma_le_round_trip(value as nat, width as nat);
        lemma_field_of_overlay(memory@, offset as int, value as nat, width as nat);
    }
    while done < width
        invariant
            done <= width,
            offset + width <= before.len(),
            memory@.len() == before.len() == length,
            bytes.len() == width,
            bytes.skip(done as int) =~= le_bytes(rest as nat, (width - done) as nat),
            forall|i: int|
                0 <= i < before.len() ==> #[trigger] memory@[i] == (if offset <= i < offset + done {
                    bytes[i - offset]
                } else {
                    before[i]
                }),
        decreases width - done,
    {
        proof {
            assert(bytes.skip(done as int)[0] == (rest % 256) as u8);
            assert(bytes.skip(done + 1) =~= bytes.skip(done as int).drop_first());
            assert(bytes.skip(done as int).drop_first() =~= le_bytes(
                rest as nat / 256,
                (width - done - 1) as nat,
            ));
        }
        memory[offset + done] = (rest % 256) as u8;
        rest = rest / 256;
        done = done + 1;
    }
    assert(memory@ =~= overlay(before, offset as int, bytes));
    proof {
        lemma_overlay_is_local(before, offset as int, bytes);
    }
}

/// Copies `bytes` into `memory` from `offset` on.
pub fn copy_in(memory: &mut [u8], offset: usize, bytes: &[u8])
    requires
        offset + bytes@.len() <= old(memory)@.len(),
    ensures
        final(memory)@ == overlay(old(memory)@, offset as int, bytes@),
        changed_within(old(memory)@, final(memory)@, offset as int, offset + bytes@.len()),
{
    let length: usize = memory.len();
    let ghost before = memory@;
    let mut done: usize = 0;
    while done < bytes.len()
        invariant
            done <= bytes@.len(),
            offset + bytes@.len() <= before.len(),
            memory@.len() == before.len() == length,
            forall|i: int|
                0 <= i < before.len() ==> #[trigger] memory@[i] == (if offset <= i < offset + done {
                    bytes@[i - offset]
                } else {
                    before[i]
                }),
        decreases bytes@.len() - done,
    {
        memory[offset + done] = bytes[done];
        done = done + 1;
    }
    assert(memory@ =~= overlay(before, offset as int, bytes@));
    proof {
        lemma_overlay_is_local(before, offset as int, bytes@);
    }
}

/// A field is little-endian: its first byte counts once and each further byte 256 times
/// as much as the one before.
pub proof fn law_fields_are_little_endian(memory: Seq<u8>, offset: int)
    requires
        0 <= offset,
        offset + 8 <= memory.len(),
    ensures
        field(memory, offset, 1) == memory[offset],
        field(memory, offset, 2) == memory[offset] + 0x100 * memory[offset + 1],
        field(memory, offset, 4) == memory[offset] + 0x100 * memory[offset + 1] + 0x1_0000
            * memory[offset + 2] + 0x100_0000 * memory[offset + 3],
        field(memory, offset, 8) == memory[offset] + 0x100 * memory[offset + 1] + 0x1_0000
            * memory[offset + 2] + 0x100_0000 * memory[offset + 3] + 0x1_0000_0000 * memory[offset
            + 4] + 0x100_0000_0000 * memory[offset + 5] + 0x1_0000_0000_0000 * memory[offset + 6]
            + 0x100_0000_0000_0000 * memory[offset + 7],
{
    lemma_first_byte(memory, offset, 1);
    lemma_first_byte(memory, offset, 2);
    lemma_first_byte(memory, offset, 4);
    lemma_first_byte(memory, offset, 8);
    lemma_first_byte(memory, offset + 1, 0);
    lemma_first_byte(memory, offset + 1, 1);
    lemma_first_byte(memory, offset + 1, 3);
    lemma_first_byte(memory, offset + 1, 7);
    lemma_first_byte(memory, offset + 2, 0);
    lemma_first_byte(memory, offset + 2, 2);
    lemma_first_byte(memory, offset + 2, 6);
    lemma_first_byte(memory, offset + 3, 1);
    lemma_first_byte(memory, offset + 3, 5);
    lemma_first_byte(memory, offset + 4, 0);
    lemma_first_byte(memory, offset + 4, 4);
    lemma_first_byte(memory, offset + 5, 3);
    lemma_first_byte(memory, offset + 6, 2);
    lemma_first_byte(memory, offset + 7, 1);
    lemma_first_byte(memory, offset + 8, 0);
}

/// A field by its first byte and the rest.
proof fn lemma_first_byte(memory: Seq<u8>, offset: int, width: nat)
    requires
        0 <= offset,
        offset + width <= memory.len(),
    ensures
        width == 0 ==> field(memory, offset, width) == 0,
        width > 0 ==> field(memory, offset, width) == memory[offset] + 256 * field(
            memory,
            offset + 1,
            (width - 1) as nat,
        ),
{
    if width > 0 {
        assert(memory.subrange(offset, offset + width).drop_first() =~= memory.subrange(
            offset + 1,
            offset + width,
        ));
    }
}

/// What is laid over memory is found there byte by byte, and every other byte is what it
/// was.
pub proof fn law_overlay_replaces_its_bytes(memory: Seq<u8>, at: int, bytes: Seq<u8>, i: int)
    requires
        0 <= at,
        at + bytes.len() <= memory.len(),
        0 <= i < memory.len(),
    ensures
        overlay(memory, at, bytes).len() == memory.len(),
        at <= i < at + bytes.len() ==> overlay(memory, at, bytes)[i] == bytes[i - at],
        i < at || at + bytes.len() <= i ==> overlay(memory, at, bytes)[i] == memory[i],
{
}

/// What the byte at place `k` of a little-endian number counts.
pub open spec fn weight(k: nat) -> nat {
    if k == 0 {
        1
    } else if k == 1 {
        0x100
    } else if k == 2 {
        0x1_0000
    } else if k == 3 {
        0x100_0000
    } else if k == 4 {
        0x1_0000_0000
    } else if k == 5 {
        0x100_0000_0000
    } else if k == 6 {
        0x1_0000_0000_0000
    } else {
        0x100_0000_0000_0000
    }
}

/// The representation of a number in up to eight bytes is as wide as asked for; the byte
/// that counts `weight(k)` is at place `k` from the start (little-endian) or from the end
/// (big-endian).
pub proof fn law_representations(value: nat, width: nat, k: nat)
    requires
        k < width <= 8,
    ensures
        le_bytes(value, width).len() == width,
        be_bytes(value, width).len() == width,
        le_bytes(value, width)[k as int] == value / weight(k) % 256,
        be_bytes(value, width)[width - 1 - k] == value / weight(k) % 256,
{
    reveal_with_fuel(span, 9);
    lemma_byte(value, width, k);
    assert(weight(k) == span(k));
}

proof fn lemma_byte(value: nat, width: nat, k: nat)
    requires
        k < width,
    ensures
        le_bytes(value, width).len() == width,
        le_bytes(value, width)[k as int] == value / span(k) % 256,
    decreases width,
{
    lemma_span_monotonic(0, k);
    lemma_le_len(value, width);
    if k > 0 {
        lemma_span_monotonic(0, (k - 1) as nat);
        lemma_byte(value / 256, (width - 1) as nat, (k - 1) as nat);
        vstd::arithmetic::div_mod::lemma_div_denominator(
            value as int,
            256,
            span((k - 1) as nat) as int,
        );
    }
}

proof fn lemma_le_len(value: nat, width: nat)
    ensures
        le_bytes(value, width).len() == width,
    decreases width,
{
    if width > 0 {
        lemma_le_len(value / 256, (width - 1) as nat);
    }
}

/// Bits of a word as remainders and quotients.
pub proof fn lemma_bits(value: u64)
    ensures
        value & 0x1 == value % 2,
        value & 0x4 != 0 <==> value / 0x4 % 2 == 1,
        value & 0x40 != 0 <==> value / 0x40 % 2 == 1,
        value & 0x200 != 0 <==> value / 0x200 % 2 == 1,
        value & 0x1000 != 0 <==> value / 0x1000 % 2 == 1,
        value & 0x1_0000 != 0 <==> value / 0x1_0000 % 2 == 1,
        value & 0x6_0000 == value / 0x2_0000 % 4 * 0x2_0000,
        value & 0xff == value % 0x100,
        value as u8 == value % 0x100,
        value & 0xffff_ffff == value % 0x1_0000_0000,
        value as u32 == value % 0x1_0000_0000,
        value >> 32 == value / 0x1_0000_0000,
        value << 32 == value % 0x1_0000_0000 * 0x1_0000_0000,
        (value >> 3) & 1 == value / 8 % 2,
        (value >> 16) as u16 == value / 0x1_0000 % 0x1_0000,
        (value >> 16) & 0xffff == value / 0x1_0000 % 0x1_0000,
{
    assert(value & 0x1 == value % 2 && (value & 0x4 != 0 <==> value / 0x4 % 2 == 1) && (value & 0x40
        != 0 <==> value / 0x40 % 2 == 1) && (value & 0x200 != 0 <==> value / 0x200 % 2 == 1) && (
    value & 0x1000 != 0 <==> value / 0x1000 % 2 == 1) && (value & 0x1_0000 != 0 <==> value
        / 0x1_0000 % 2 == 1) && value & 0x6_0000 == value / 0x2_0000 % 4 * 0x2_0000) by (bit_vector);
    assert(value & 0xff == value % 0x100 && value as u8 == value % 0x100 && value & 0xffff_ffff
        == value % 0x1_0000_0000 && value as u32 == value % 0x1_0000_0000 && value >> 32 == value
        / 0x1_0000_0000 && value << 32 == value % 0x1_0000_0000 * 0x1_0000_0000) by (bit_vector);
    assert((value >> 3) & 1 == value / 8 % 2 && (value >> 16) as u16 == value / 0x1_0000 % 0x1_0000
        && (value >> 16) & 0xffff == value / 0x1_0000 % 0x1_0000) by (bit_vector);
}

} // verus!
