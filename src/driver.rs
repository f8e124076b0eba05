//! The driver: construction with the power-up sequence, and the two transfer
//! primitives.
use crate::hal::{ControlLine, DelaySource, Transport};
use crate::trace::{blank_screen, init_commands, lit_band, power_up, transfer, Event};
use vstd::prelude::*;

verus! {

/// PCD8544 driver. It exclusively owns the bus, the three control lines and the
/// delay source for its whole lifetime.
pub struct Pcd8544<SPI, RES, CE, DC, DELAY> {
    spi: SPI,
    /// Reset (active low)
    res: RES,
    /// Chip Enable (active low)
    ce: CE,
    /// Data/Command (high = data, low = command)
    dc: DC,
    delay: DELAY,
    /// Every operation issued on the resources above, in order.
    log: Ghost<Seq<Event>>,
}

impl<SPI, RES, CE, DC, DELAY> Pcd8544<SPI, RES, CE, DC, DELAY> where
    SPI: Transport,
    RES: ControlLine,
    CE: ControlLine,
    DC: ControlLine,
    DELAY: DelaySource,
 {
    /// The operations issued on the owned resources so far, oldest first.
    pub closed spec fn log(&self) -> Seq<Event> {
        self.log@
    }

    fn reset(&mut self, high: bool)
        ensures
            final(self).log() == old(self).log().push(Event::Reset(high)),
    {
        if high {
            self.res.set_high();
        } else {
            self.res.set_low();
        }
        self.log = Ghost(self.log@.push(Event::Reset(high)));
    }

    fn chip_select(&mut self, high: bool)
        ensures
            final(self).log() == old(self).log().push(Event::ChipSelect(high)),
    {
        if high {
            self.ce.set_high();
        } else {
            self.ce.set_low();
        }
        self.log = Ghost(self.log@.push(Event::ChipSelect(high)));
    }

    fn data_command(&mut self, high: bool)
        ensures
            final(self).log() == old(self).log().push(Event::DataCommand(high)),
    {
        if high {
            self.dc.set_high();
        } else {
            self.dc.set_low();
        }
        self.log = Ghost(self.log@.push(Event::DataCommand(high)));
    }

    fn wait(&mut self, us: u8)
        ensures
            final(self).log() == old(self).log().push(Event::Delay(us)),
    {
        self.delay.delay_us(us);
        self.log = Ghost(self.log@.push(Event::Delay(us)));
    }

    fn write_bytes(&mut self, bytes: &[u8]) -> (r: Result<(), SPI::Error>)
        ensures
            final(self).log() == old(self).log().push(Event::Write(bytes@, r is Ok)),
    {
        let r = self.spi.write(bytes);
        self.log = Ghost(self.log@.push(Event::Write(bytes@, r is Ok)));
        r
    }

    /// Data/Command set to `data`, then the bytes written with Chip-Select held low.
    /// Chip-Select is released whether or not the write succeeded.
    fn transfer(&mut self, data: bool, bytes: &[u8]) -> (r: Result<(), SPI::Error>)
        ensures
            final(self).log() == old(self).log() + transfer(data, bytes@, r is Ok),
    {
        self.data_command(data);
        self.chip_select(false);
        let r = self.write_bytes(bytes);
        self.chip_select(true);
        assert(self.log() =~= old(self).log() + transfer(data, bytes@, r is Ok));
        r
    }

    /// Create a new driver from an SPI peripheral and
    /// digital output pins, and bring the controller up: reset pulse, register
    /// programming, pixel memory cleared, one band lit.
    pub fn new(spi: SPI, res: RES, ce: CE, dc: DC, delay: DELAY) -> (r: Result<Self, SPI::Error>)
        ensures
            r matches Ok(d) ==> d.log() == power_up(3),
    {
        let mut pcd8544 = Pcd8544 { spi, res, ce, dc, delay, log: Ghost(Seq::empty()) };
        match pcd8544.start_up() {
            Ok(()) => {
                assert(pcd8544.log() =~= power_up(3));
                Ok(pcd8544)
            },
            Err(e) => Err(e),
        }
    }

    /// The power-up sequence. It stops at the first write that fails: the failed
    /// transfer still releases Chip-Select, and nothing is issued after it.
    fn start_up(&mut self) -> (r: Result<(), SPI::Error>)
        ensures
            exists|n: nat|
                n <= 3 && final(self).log() == old(self).log() + #[trigger] power_up(n) && (r is Ok
                    <==> n == 3),
    {
        let ghost start = self.log();
        self.chip_select(true);
        self.reset(false);
        self.wait(1);
        self.reset(true);

        let init_sequence: [u8; 9] = [0x21, 0x13, 0xc2, 0x20, 0x09, 0x08, 0x0c, 0x80, 0x40];
        assert(init_sequence@ =~= init_commands());
        let r = self.send_cmd(&init_sequence);
        if r.is_err() {
            assert(self.log() =~= start + power_up(0));
            return r;
        }
        // clear the pixel memory
        let blank: [u8; 504] = [0x00; 504];
        assert(blank@ =~= blank_screen());
        let r = self.send_data(&blank);
        if r.is_err() {
            assert(self.log() =~= start + power_up(1));
            return r;
        }
        // one lit band, showing that the link is alive
        let band: [u8; 84] = [0xff; 84];
        assert(band@ =~= lit_band());
        let r = self.send_data(&band);
        assert(self.log() =~= start + power_up(if r is Ok { 3 } else { 2 }));
        r
    }

    /// Send a sequence of bytes. This will be interpreted
    /// as a command sequence.
    pub fn send_cmd(&mut self, bytes: &[u8]) -> (r: Result<(), SPI::Error>)
        ensures
            final(self).log() == old(self).log() + transfer(false, bytes@, r is Ok),
    {
        self.transfer(false, bytes)
    }

    /// Send a sequence of bytes. This will be interpreted
    /// as a data sequence.
    pub fn send_data(&mut self, bytes: &[u8]) -> (r: Result<(), SPI::Error>)
        ensures
            final(self).log() == old(self).log() + transfer(true, bytes@, r is Ok),
    {
        self.transfer(true, bytes)
    }
}

} // verus!
