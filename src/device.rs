use vstd::prelude::*;
use crate::encode::{
    channel_command, channel_word, config_words, power_down_command, power_down_word,
    reset_command, reset_word, Ad5328Config, Channel,
};

verus! {

/// A bus that takes bytes; its error is whatever the transport reports.
pub trait SpiWrite {
    type Error;

    fn write(&mut self, words: &[u8]) -> Result<(), Self::Error>;
}

/// A digital output line that frames each transaction.
pub trait ControlLine {
    type Error;

    fn set_low(&mut self) -> Result<(), Self::Error>;

    fn set_high(&mut self) -> Result<(), Self::Error>;
}

#[derive(Debug)]
pub enum Error<S, P> {
    /// SPI bus error
    Spi(S),
    /// Pin error
    Pin(P),
    /// Connection error (device not found)
    Conn,
    /// Address error (invalid or out of bounds)
    Address,
    /// Port error (invalid or out of bounds)
    Port,
    /// Out of bounds error
    Oob,
}

/// One call that the driver made on its bus or its control line, with the
/// error that call returned, or `None` where it succeeded.
pub enum BusOp<S, P> {
    LineLow(Option<P>),
    Transfer(u8, u8, Option<S>),
    LineHigh(Option<P>),
}

/// The error of a call's result, if it failed.
pub open spec fn failure<E>(res: Result<(), E>) -> Option<E> {
    match res {
        Ok(_) => None,
        Err(e) => Some(e),
    }
}

/// Whether a recorded call succeeded.
pub open spec fn op_ok<S, P>(op: BusOp<S, P>) -> bool {
    match op {
        BusOp::LineLow(res) => res is None,
        BusOp::Transfer(_, _, res) => res is None,
        BusOp::LineHigh(res) => res is None,
    }
}

pub open spec fn all_ok<S, P>(calls: Seq<BusOp<S, P>>) -> bool {
    forall|i: int| 0 <= i < calls.len() ==> #[trigger] op_ok(calls[i])
}

pub open spec fn high_byte(cmd: u16) -> u8 {
    (cmd / 256) as u8
}

pub open spec fn low_byte(cmd: u16) -> u8 {
    (cmd % 256) as u8
}

/// The calls that send `cmd`, and the result they give: line low; if that
/// succeeded, the high byte then the low byte in one transfer; if that
/// succeeded, line high. The first failing call ends the frame, and its error
/// is returned as `Pin` (line) or `Spi` (bus); if none fails the result is `Ok`.
pub open spec fn frame_calls<S, P>(
    calls: Seq<BusOp<S, P>>,
    cmd: u16,
    r: Result<(), Error<S, P>>,
) -> bool {
    &&& calls.len() >= 1
    &&& match calls[0] {
        BusOp::LineLow(Some(e)) => calls.len() == 1 && r == Err::<(), Error<S, P>>(Error::Pin(e)),
        BusOp::LineLow(None) => calls.len() >= 2 && match calls[1] {
            BusOp::Transfer(hi, lo, Some(e)) => hi == high_byte(cmd) && lo == low_byte(cmd)
                && calls.len() == 2 && r == Err::<(), Error<S, P>>(Error::Spi(e)),
            BusOp::Transfer(hi, lo, None) => hi == high_byte(cmd) && lo == low_byte(cmd)
                && calls.len() == 3 && match calls[2] {
                BusOp::LineHigh(Some(e)) => r == Err::<(), Error<S, P>>(Error::Pin(e)),
                BusOp::LineHigh(None) => r == Ok::<(), Error<S, P>>(()),
                _ => false,
            },
            _ => false,
        },
        _ => false,
    }
}

/// The calls that apply configuration `c`: the control word's frame; only if
/// all of its calls succeeded, the LDAC word's frame. The result is that of
/// the last frame sent.
pub open spec fn configure_calls<S, P>(
    calls: Seq<BusOp<S, P>>,
    c: Ad5328Config,
    r: Result<(), Error<S, P>>,
) -> bool {
    let w = config_words(c);
    ||| (r is Err && frame_calls(calls, w[0], r))
    ||| (calls.len() >= 3 && frame_calls(calls.take(3), w[0], Ok::<(), Error<S, P>>(()))
        && frame_calls(calls.skip(3), w[1], r))
}

/// `after` is `before` with more calls appended.
pub open spec fn extends<T>(before: Seq<T>, after: Seq<T>) -> bool {
    before.len() <= after.len() && after.take(before.len() as int) == before
}

pub open spec fn appended<T>(before: Seq<T>, after: Seq<T>) -> Seq<T> {
    after.skip(before.len() as int)
}

/// Sending `cmd` appended exactly the calls of its frame, which gave `r`.
pub open spec fn frame_outcome<S, P>(
    before: Seq<BusOp<S, P>>,
    after: Seq<BusOp<S, P>>,
    cmd: u16,
    r: Result<(), Error<S, P>>,
) -> bool {
    extends(before, after) && frame_calls(appended(before, after), cmd, r)
}

/// Applying `c` appended exactly the calls of its frames, which gave `r`.
pub open spec fn configure_outcome<S, P>(
    before: Seq<BusOp<S, P>>,
    after: Seq<BusOp<S, P>>,
    c: Ad5328Config,
    r: Result<(), Error<S, P>>,
) -> bool {
    extends(before, after) && configure_calls(appended(before, after), c, r)
}

/// The bytes of a frame's transfer read back as its word, high byte first.
pub proof fn lemma_frame_bytes(cmd: u16)
    ensures
        high_byte(cmd) as int * 256 + low_byte(cmd) as int == cmd as int,
{
}

/// Where every call succeeds, one configuration gives `Ok` both times it is
/// applied, and both times the same calls.
pub proof fn lemma_configure_repeatable<S, P>(
    c: Ad5328Config,
    first: Seq<BusOp<S, P>>,
    second: Seq<BusOp<S, P>>,
    r1: Result<(), Error<S, P>>,
    r2: Result<(), Error<S, P>>,
)
    requires
        configure_calls(first, c, r1),
        configure_calls(second, c, r2),
        all_ok(first),
        all_ok(second),
    ensures
        r1 is Ok,
        r2 is Ok,
        first == second,
{
    lemma_all_ok_configure(c, first, r1);
    lemma_all_ok_configure(c, second, r2);
    let w = config_words(c);
    lemma_all_ok_frame(first.take(3), w[0], Ok::<(), Error<S, P>>(()));
    lemma_all_ok_frame(second.take(3), w[0], Ok::<(), Error<S, P>>(()));
    lemma_all_ok_frame(first.skip(3), w[1], r1);
    lemma_all_ok_frame(second.skip(3), w[1], r2);
    assert(first.take(3) =~= second.take(3));
    assert(first.skip(3) =~= second.skip(3));
    assert(first =~= first.take(3) + first.skip(3));
    assert(second =~= second.take(3) + second.skip(3));
}

/// A frame whose calls all succeeded has three calls, is fixed by its word,
/// and gives `Ok`.
proof fn lemma_all_ok_frame<S, P>(calls: Seq<BusOp<S, P>>, cmd: u16, r: Result<(), Error<S, P>>)
    requires
        frame_calls(calls, cmd, r),
        all_ok(calls),
    ensures
        r is Ok,
        calls =~= seq![
            BusOp::LineLow(None::<P>),
            BusOp::Transfer(high_byte(cmd), low_byte(cmd), None::<S>),
            BusOp::LineHigh(None::<P>),
        ],
{
    assert(op_ok(calls[0]));
    assert(op_ok(calls[1]));
    assert(op_ok(calls[2]));
}

/// Where every call of a configuration succeeded, both frames were sent.
proof fn lemma_all_ok_configure<S, P>(
    c: Ad5328Config,
    calls: Seq<BusOp<S, P>>,
    r: Result<(), Error<S, P>>,
)
    requires
        configure_calls(calls, c, r),
        all_ok(calls),
    ensures
        calls.len() >= 3,
        frame_calls(calls.take(3), config_words(c)[0], Ok::<(), Error<S, P>>(())),
        frame_calls(calls.skip(3), config_words(c)[1], r),
        all_ok(calls.take(3)),
        all_ok(calls.skip(3)),
{
    if r is Err && frame_calls(calls, config_words(c)[0], r) {
        lemma_all_ok_frame(calls, config_words(c)[0], r);
    }
    assert forall|i: int| 0 <= i < calls.skip(3).len() implies #[trigger] op_ok(calls.skip(3)[i]) by {
        assert(op_ok(calls[i + 3]));
    }
    assert forall|i: int| 0 <= i < calls.take(3).len() implies #[trigger] op_ok(calls.take(3)[i]) by {
        assert(op_ok(calls[i]));
    }
}

/// Driver handle: owns the bus and the control line.
pub struct Ad5328<SPI: SpiWrite, EN: ControlLine> {
    spi: SPI,
    enable: EN,
    cmd_buf: [u8; 2],
    sent: Ghost<Seq<BusOp<SPI::Error, EN::Error>>>,
}

impl<SPI: SpiWrite, EN: ControlLine> Ad5328<SPI, EN> {
    /// Every bus and line call made through this handle, in order, with what
    /// each returned.
    pub closed spec fn ops(&self) -> Seq<BusOp<SPI::Error, EN::Error>> {
        self.sent@
    }

    fn write(&mut self, cmd: u16) -> (r: Result<(), Error<SPI::Error, EN::Error>>)
        ensures
            frame_outcome(old(self).ops(), final(self).ops(), cmd, r),
    {
        let ghost before = self.sent@;
        let low = self.enable.set_low();
        self.sent = Ghost(before.push(BusOp::LineLow(failure(low))));
        proof {
            assert(appended(before, self.sent@) =~= seq![BusOp::LineLow(failure(low))]);
            assert(self.sent@.take(before.len() as int) =~= before);
        }
        match low {
            Ok(()) => {},
            Err(e) => {
                return Err(Error::Pin(e));
            },
        }
        self.cmd_buf[0] = (cmd / 256) as u8;
        self.cmd_buf[1] = (cmd % 256) as u8;
        let sent = self.spi.write(self.cmd_buf.as_slice());
        let ghost mid = self.sent@;
        self.sent = Ghost(mid.push(BusOp::Transfer(self.cmd_buf[0], self.cmd_buf[1], failure(sent))));
        proof {
            assert(appended(before, self.sent@) =~= seq![
                BusOp::LineLow(failure(low)),
                BusOp::Transfer(self.cmd_buf[0], self.cmd_buf[1], failure(sent)),
            ]);
            assert(self.sent@.take(before.len() as int) =~= before);
        }
        match sent {
            Ok(()) => {},
            Err(e) => {
                return Err(Error::Spi(e));
            },
        }
        let high = self.enable.set_high();
        let ghost mid2 = self.sent@;
        self.sent = Ghost(mid2.push(BusOp::LineHigh(failure(high))));
        proof {
            assert(appended(before, self.sent@) =~= seq![
                BusOp::LineLow(failure(low)),
                BusOp::Transfer(self.cmd_buf[0], self.cmd_buf[1], failure(sent)),
                BusOp::LineHigh(failure(high)),
            ]);
            assert(self.sent@.take(before.len() as int) =~= before);
        }
        match high {
            Ok(()) => Ok(()),
            Err(e) => Err(Error::Pin(e)),
        }
    }

    /// Takes the bus and the control line, then configures the chip for the
    /// first time. On failure no handle is returned, and the error is that of
    /// the first failing call of the configuration.
    pub fn init(spi: SPI, enable: EN, config: Ad5328Config) -> (r: Result<
        Self,
        Error<SPI::Error, EN::Error>,
    >)
        ensures
            r matches Ok(d) ==> configure_calls(
                d.ops(),
                config,
                Ok::<(), Error<SPI::Error, EN::Error>>(()),
            ),
            r matches Err(e) ==> exists|calls: Seq<BusOp<SPI::Error, EN::Error>>|
                configure_calls(calls, config, Err::<(), Error<SPI::Error, EN::Error>>(e)),
    {
        let mut ad5328 = Ad5328 { spi, enable, cmd_buf: [0;2], sent: Ghost(Seq::empty()) };
        let res = ad5328.configure(config);
        proof {
            assert(appended(Seq::<BusOp<SPI::Error, EN::Error>>::empty(), ad5328.sent@)
                =~= ad5328.sent@);
        }
        match res {
            Ok(()) => Ok(ad5328),
            Err(e) => Err(e),
        }
    }

    /// (Re-)configures the chip: sends the control word, then the LDAC word,
    /// stopping at the first failure.
    pub fn configure(&mut self, config: Ad5328Config) -> (r: Result<
        (),
        Error<SPI::Error, EN::Error>,
    >)
        ensures
            configure_outcome(old(self).ops(), final(self).ops(), config, r),
    {
        let cmds = config.as_commands();
        let ghost before = self.sent@;
        match self.write(cmds[0]) {
            Ok(()) => {},
            Err(e) => {
                return Err(e);
            },
        }
        let ghost mid = self.sent@;
        let r = self.write(cmds[1]);
        proof {
            let calls = appended(before, self.sent@);
            assert(calls.take(3) =~= appended(before, mid));
            assert(calls.skip(3) =~= appended(mid, self.sent@));
            assert(self.sent@.take(before.len() as int) =~= before);
        }
        r
    }

    /// Resets all DAC data; a full reset also resets the control data.
    pub fn reset(&mut self, full_reset: bool) -> (r: Result<(), Error<SPI::Error, EN::Error>>)
        ensures
            frame_outcome(old(self).ops(), final(self).ops(), reset_word(full_reset), r),
    {
        let cmd = reset_command(full_reset);
        self.write(cmd)
    }

    /// Powers down each channel whose flag is set; channel A is position 0,
    /// channel H position 7.
    pub fn power_down(&mut self, channels: [bool; 8]) -> (r: Result<
        (),
        Error<SPI::Error, EN::Error>,
    >)
        ensures
            frame_outcome(old(self).ops(), final(self).ops(), power_down_word(channels@), r),
    {
        let cmd = power_down_command(channels);
        self.write(cmd)
    }

    /// Sets the value of a DAC channel. Values above 4095 are refused with
    /// `Oob` before anything is sent.
    pub fn set_channel(&mut self, channel: Channel, value: u16) -> (r: Result<
        (),
        Error<SPI::Error, EN::Error>,
    >)
        ensures
            value > 4095 ==> (r matches Err(Error::Oob)) && final(self).ops() == old(self).ops(),
            value <= 4095 ==> frame_outcome(
                old(self).ops(),
                final(self).ops(),
                channel_word(channel, value),
                r,
            ),
    {
        if value > 4095 {
            return Err(Error::Oob);
        }
        let cmd = channel_command(channel, value);
        self.write(cmd)
    }
}

} // verus!
