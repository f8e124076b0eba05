//! The model of what the driver does: the sequence of operations it issues on the
//! resources it owns.
use vstd::prelude::*;

verus! {

/// One operation that the driver issues on the resources it owns.
pub enum Event {
    /// The Reset line is driven to the given level (`true` is high).
    Reset(bool),
    /// The Chip-Select line is driven to the given level (`true` is high).
    ChipSelect(bool),
    /// The Data/Command line is driven to the given level (`true` is high: data).
    DataCommand(bool),
    /// A blocking wait of the given number of microseconds.
    Delay(u8),
    /// A bus write of the given bytes; the flag tells whether the transport
    /// reported success.
    Write(Seq<u8>, bool),
}

/// One transfer: Data/Command set to `data` (high for pixel data, low for
/// commands), Chip-Select asserted, the bytes written, Chip-Select released,
/// whatever the transport reported.
pub open spec fn transfer(data: bool, bytes: Seq<u8>, ok: bool) -> Seq<Event> {
    seq![
        Event::DataCommand(data),
        Event::ChipSelect(false),
        Event::Write(bytes, ok),
        Event::ChipSelect(true),
    ]
}

/// The reset pulse that starts the power-up sequence.
pub open spec fn reset_pulse() -> Seq<Event> {
    seq![Event::ChipSelect(true), Event::Reset(false), Event::Delay(1), Event::Reset(true)]
}

/// The register programming sent at power-up: extended instruction set, bias,
/// operating voltage, normal instruction set, temperature coefficient, display
/// control (normal), display control (on, not inverted), X address 0, Y address 0.
pub open spec fn init_commands() -> Seq<u8> {
    seq![0x21u8, 0x13u8, 0xc2u8, 0x20u8, 0x09u8, 0x08u8, 0x0cu8, 0x80u8, 0x40u8]
}

/// Number of columns of the display.
pub const COLUMNS: usize = 84;

/// Number of bands of eight pixel rows.
pub const BANDS: usize = 6;

/// Zero bytes for the whole pixel memory.
pub open spec fn blank_screen() -> Seq<u8> {
    Seq::new((COLUMNS * BANDS) as nat, |i: int| 0u8)
}

/// One fully lit band.
pub open spec fn lit_band() -> Seq<u8> {
    Seq::new(COLUMNS as nat, |i: int| 0xffu8)
}

/// The operations of the power-up sequence when its first `n` transfers succeed
/// and, if `n < 3`, the next one fails: nothing is issued after the failed write
/// but the release of Chip-Select.
pub open spec fn power_up(n: nat) -> Seq<Event> {
    reset_pulse() + transfer(false, init_commands(), n >= 1) + (if n >= 1 {
        transfer(true, blank_screen(), n >= 2)
    } else {
        seq![]
    }) + (if n >= 2 {
        transfer(true, lit_band(), n >= 3)
    } else {
        seq![]
    })
}

} // verus!

verus! {

/// A transfer whose write fails still releases Chip-Select, right after the write,
/// and Data/Command was set before Chip-Select went low: the bus is left idle.
pub proof fn lemma_failed_transfer_releases_chip_select(data: bool, bytes: Seq<u8>)
    ensures
        transfer(data, bytes, false).len() == 4,
        transfer(data, bytes, false)[0] == Event::DataCommand(data),
        transfer(data, bytes, false)[1] == Event::ChipSelect(false),
        transfer(data, bytes, false)[2] == Event::Write(bytes, false),
        transfer(data, bytes, false).last() == Event::ChipSelect(true),
{
}

/// Repeating a data transfer of the same bytes issues the same operations again:
/// the operations a transfer adds to the log do not depend on what came before,
/// and two of them differ at most in the outcome the transport reports.
pub proof fn lemma_repeated_data_transfer(before: Seq<Event>, bytes: Seq<u8>, ok1: bool, ok2: bool)
    ensures
        ({
            let once = before + transfer(true, bytes, ok1);
            let twice = once + transfer(true, bytes, ok2);
            &&& once.subrange(before.len() as int, once.len() as int) == transfer(true, bytes, ok1)
            &&& twice.subrange(once.len() as int, twice.len() as int) == transfer(true, bytes, ok2)
            &&& forall|i: int|
                0 <= i < 4 && i != 2 ==> #[trigger] transfer(true, bytes, ok1)[i] == transfer(
                    true,
                    bytes,
                    ok2,
                )[i]
            &&& ok1 == ok2 ==> transfer(true, bytes, ok1) == transfer(true, bytes, ok2)
        }),
{
    let once = before + transfer(true, bytes, ok1);
    let twice = once + transfer(true, bytes, ok2);
    assert(once.subrange(before.len() as int, once.len() as int) =~= transfer(true, bytes, ok1));
    assert(twice.subrange(once.len() as int, twice.len() as int) =~= transfer(true, bytes, ok2));
}

/// When a write of the power-up sequence fails, it is the last write: the log ends
/// with that failed write and the release of Chip-Select, and every write before it
/// succeeded.
pub proof fn lemma_power_up_stops_at_failure(n: nat)
    requires
        n < 3,
    ensures
        power_up(n).len() == 8 + 4 * n,
        power_up(n)[power_up(n).len() - 2] matches Event::Write(_, false),
        power_up(n).last() == Event::ChipSelect(true),
        forall|i: int|
            0 <= i < power_up(n).len() - 2 ==> !(#[trigger] power_up(n)[i] matches Event::Write(
                _,
                false,
            )),
{
    let p = power_up(n);
    if n == 0 {
        assert(p =~= reset_pulse() + transfer(false, init_commands(), false));
    } else if n == 1 {
        assert(p =~= reset_pulse() + transfer(false, init_commands(), true) + transfer(
            true,
            blank_screen(),
            false,
        ));
    } else {
        assert(p =~= reset_pulse() + transfer(false, init_commands(), true) + transfer(
            true,
            blank_screen(),
            true,
        ) + transfer(true, lit_band(), false));
    }
}

/// When every write succeeds, the power-up sequence is the reset pulse followed by
/// the register programming, the cleared pixel memory and the lit band, each as a
/// successful transfer.
pub proof fn lemma_power_up_complete()
    ensures
        power_up(3) == reset_pulse() + transfer(false, init_commands(), true) + transfer(
            true,
            blank_screen(),
            true,
        ) + transfer(true, lit_band(), true),
        power_up(3).len() == 16,
{
}

} // verus!
