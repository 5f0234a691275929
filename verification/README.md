# rhyve

rhyve is a bare-metal hypervisor on top of the Hermit kernel. It runs as a Hermit
unikernel, boots a guest inside a virtual machine, and exposes a small web service:
upload a guest image, run it, and watch the guest's serial output stream back.

The library is verified with Verus; `app/` is the service around it.

## Layout

- `src/`: the verified library.
  - `vm`, `vcpu`, `launch`: virtual machines, virtual CPUs and booting a guest.
  - `svm`, `apic`, `fpu`: the AMD-V backend, the timer and FP state it keeps.
  - `vmx`, `intel`: the VT-x backend, as sequences of operations that the embedder
    carries out one by one.
  - `paging`, `translation`: nested page tables, and what the processor's walk through
    them finds.
  - `boot`, `fdt`, `image`: the guest's initial memory, its device tree and the names of
    images.
  - `uart`, `hypercall`: the serial console and the hypercall interface.
  - `cpu`, `host`, `backend`, `error`, `bytes`, `text`: what the others share.
- `tests/`: tests of the library.
- `app/`: the web service, file access, and the instructions that only the processor
  can carry out.

## How the library and its embedder work together

The library never touches the hardware. Memory that the processor reads is handed to it
as the addresses of pages (`PagePool`), whose host-physical addresses it learns from the
embedder's `HostMemory`. The embedder copies tables, control blocks and bitmaps to their
pages, enters the guest, and hands back what it finds afterwards:

- AMD-V: `SvmCpu::enter`, enter the guest, `SvmCpu::leave`; CPUID and XSETBV are executed
  on behalf of the guest where that asks for it.
- VT-x: ask for the next operation, carry it out, and reply with its result, until the
  sequence is over.
- Either way, `Cpu::handle_exit` says whether the run goes on; `Cpu::try_handle_exit` first
  makes sure that what the guest asks for is in its memory.

## Service

| Method and path      | Description                                                   |
|----------------------|---------------------------------------------------------------|
| `GET  /`             | The upload page.                                              |
| `PUT  /image/{name}` | Store the request body as `/image/{name}`.                    |
| `POST /run/{name}`   | Boot `/image/{name}`; the response streams its serial output. |

Each run gives the guest 256 MiB of memory and ends when the guest writes its exit port
(e.g. `0xf4`).
