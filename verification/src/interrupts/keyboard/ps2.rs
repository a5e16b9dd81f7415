//! Minimal PS/2 keyboard scancode-set control (command `0xF0`).
//! - Set: send `0xF0`, then 1, 2 or 3; expect ACK (`0xFA`) or RESEND (`0xFE`).
//! - Get: send `0xF0`, then 0; expect ACK, then a byte that names the set,
//!   raw (1, 2, 3) or translated (`0x43`, `0x41`, `0x3F`).

use vstd::prelude::*;

verus! {

/// A reply of the keyboard to a byte sent.
#[derive(Debug, Clone, Copy, PartialEq, Eq, Structural)]
pub enum Ps2Resp {
    /// `0xFA`
    Ack,
    /// `0xFE`
    Resend,
}

/// A scancode set, or none chosen yet.
#[derive(Debug, Clone, Copy, PartialEq, Eq, Structural)]
pub enum ScancodeSet {
    Set1,
    Set2,
    Set3,
    /// No set has been chosen yet.
    Unset,
}

/// What can go wrong in a PS/2 exchange.
#[derive(Debug, Clone, Copy, PartialEq, Eq, Structural)]
pub enum Ps2Error {
    Timeout,
    ResendLimit,
    UnexpectedByte(u8),
    NoAck,
    InvalidScancodeId(u8),
}

/// A Set 1 scancode: most keys are one byte, extended keys have the prefix
/// `0xE0`.
#[derive(Debug, Clone, Copy, PartialEq, Eq, Structural)]
pub enum Set1Code {
    Single(u8),
    Extended(u8),
}

/// Abstract PS/2 I/O, to be implemented for a controller. Nothing is known of
/// what a device answers.
pub trait Ps2Io {
    /// Writes a data byte to the PS/2 device.
    fn write_data(&mut self, byte: u8) -> Result<(), Ps2Error>;

    /// Reads a data byte from the device, with a timeout.
    fn read_data(&mut self) -> Result<u8, Ps2Error>;

    /// A small delay between a resend request and the resend.
    fn tiny_delay(&mut self);
}

/// Keyboard command: get or set the current scancode set.
pub const CMD_SCANCODE_SET: u8 = 0xF0;

/// Subcommand of `0xF0`: get the current set.
pub const SUB_GET: u8 = 0x00;

/// Subcommand of `0xF0`: use set 1.
pub const SUB_SET1: u8 = 0x01;

/// Subcommand of `0xF0`: use set 2.
pub const SUB_SET2: u8 = 0x02;

/// Subcommand of `0xF0`: use set 3.
pub const SUB_SET3: u8 = 0x03;

/// Translated identifier of set 1.
pub const ID_SET1_TRANS: u8 = 0x43;

/// Translated identifier of set 2.
pub const ID_SET2_TRANS: u8 = 0x41;

/// Translated identifier of set 3.
pub const ID_SET3_TRANS: u8 = 0x3F;

/// How often a byte is sent again when the keyboard asks for it.
pub const MAX_RESENDS: usize = 5;

/// The reply that a byte stands for, if it is one.
pub open spec fn spec_parse_resp(b: u8) -> Option<Ps2Resp> {
    if b == 0xFA {
        Some(Ps2Resp::Ack)
    } else if b == 0xFE {
        Some(Ps2Resp::Resend)
    } else {
        None
    }
}

/// Translates a byte to a reply, if it is one.
pub fn parse_resp(b: u8) -> (resp: Option<Ps2Resp>)
    ensures
        resp == spec_parse_resp(b),
{
    match b {
        0xFA => Some(Ps2Resp::Ack),
        0xFE => Some(Ps2Resp::Resend),
        _ => None,
    }
}

/// The set that an identifier names, raw or translated.
pub open spec fn spec_map_scancode_id(id: u8) -> Option<ScancodeSet> {
    if id == 0x01 || id == 0x43 {
        Some(ScancodeSet::Set1)
    } else if id == 0x02 || id == 0x41 {
        Some(ScancodeSet::Set2)
    } else if id == 0x03 || id == 0x3F {
        Some(ScancodeSet::Set3)
    } else {
        None
    }
}

/// Maps a returned identifier to its scancode set, raw or translated.
pub fn map_scancode_id(id: u8) -> (set: Option<ScancodeSet>)
    ensures
        set == spec_map_scancode_id(id),
{
    match id {
        0x01 => Some(ScancodeSet::Set1),
        0x02 => Some(ScancodeSet::Set2),
        0x03 => Some(ScancodeSet::Set3),
        0x43 => Some(ScancodeSet::Set1),
        0x41 => Some(ScancodeSet::Set2),
        0x3F => Some(ScancodeSet::Set3),
        _ => None,
    }
}

/// What to do after the keyboard has answered a byte sent.
#[derive(Debug, Clone, Copy, PartialEq, Eq, Structural)]
pub enum AckStep {
    /// The byte was acknowledged.
    Done,
    /// The byte is to be sent again.
    Retry,
    /// The exchange has failed.
    Fail(Ps2Error),
}

/// Decides what follows the answer `resp` after `tries` resends, with at most
/// `max_resends` allowed: an ACK ends the exchange, a RESEND asks for another
/// try while tries are left and fails at the limit, and any other byte fails.
pub fn ack_step(resp: u8, tries: usize, max_resends: usize) -> (step: AckStep)
    ensures
        step == match spec_parse_resp(resp) {
            Some(Ps2Resp::Ack) => AckStep::Done,
            Some(Ps2Resp::Resend) => if tries < max_resends {
                AckStep::Retry
            } else {
                AckStep::Fail(Ps2Error::ResendLimit)
            },
            None => AckStep::Fail(Ps2Error::UnexpectedByte(resp)),
        },
{
    match parse_resp(resp) {
        Some(Ps2Resp::Ack) => AckStep::Done,
        Some(Ps2Resp::Resend) => {
            if tries < max_resends {
                AckStep::Retry
            } else {
                AckStep::Fail(Ps2Error::ResendLimit)
            }
        },
        None => AckStep::Fail(Ps2Error::UnexpectedByte(resp)),
    }
}

/// Sends a byte and expects ACK or RESEND, sending it again at most
/// `max_resends` times. What comes back depends on the device, so the result
/// is stated over the device's own answers: success means that a read
/// delivered an ACK; an error is the error of a write of `byte`, the error of
/// a read, or what [`ack_step`] makes of a byte read, which is the resend
/// limit after a RESEND or the unexpected byte itself.
pub fn send_with_ack<I: Ps2Io>(io: &mut I, byte: u8, max_resends: usize) -> (res: Result<
    (),
    Ps2Error,
>)
    ensures
        res is Ok ==> exists|r: &mut I, b: u8|
            #[trigger] call_ensures(I::read_data, (r,), Ok::<u8, Ps2Error>(b)) && spec_parse_resp(
                b,
            ) == Some(Ps2Resp::Ack),
        res matches Err(e) ==> {
            ||| exists|r: &mut I| #[trigger]
                call_ensures(I::write_data, (r, byte), Err::<(), Ps2Error>(e))
            ||| exists|r: &mut I| #[trigger] call_ensures(I::read_data, (r,), Err::<u8, Ps2Error>(e))
            ||| exists|r: &mut I, b: u8|
                #[trigger] call_ensures(I::read_data, (r,), Ok::<u8, Ps2Error>(b)) && {
                    ||| e == Ps2Error::ResendLimit && spec_parse_resp(b) == Some(Ps2Resp::Resend)
                    ||| e == Ps2Error::UnexpectedByte(b) && spec_parse_resp(b) is None
                }
        },
{
    let mut tries: usize = 0;
    loop
        invariant
            tries <= max_resends,
        decreases max_resends - tries,
    {
        match io.write_data(byte) {
            Ok(()) => {},
            Err(e) => {
                return Err(e);
            },
        }
        let resp = match io.read_data() {
            Ok(resp) => resp,
            Err(e) => {
                return Err(e);
            },
        };
        match ack_step(resp, tries, max_resends) {
            AckStep::Done => {
                return Ok(());
            },
            AckStep::Retry => {
                tries += 1;
                io.tiny_delay();
            },
            AckStep::Fail(e) => {
                return Err(e);
            },
        }
    }
}

/// The subcommand that selects `set`; with none chosen, set 1.
pub fn sub_command(set: ScancodeSet) -> (sub: u8)
    ensures
        sub == spec_sub_command(set),
{
    match set {
        ScancodeSet::Set1 | ScancodeSet::Unset => SUB_SET1,
        ScancodeSet::Set2 => SUB_SET2,
        ScancodeSet::Set3 => SUB_SET3,
    }
}

/// Judges the identifier that the keyboard sent for its current set.
pub fn scancode_reply(id: u8) -> (res: Result<ScancodeSet, Ps2Error>)
    ensures
        res == match spec_map_scancode_id(id) {
            Some(set) => Ok::<ScancodeSet, Ps2Error>(set),
            None => Err::<ScancodeSet, Ps2Error>(Ps2Error::InvalidScancodeId(id)),
        },
{
    match map_scancode_id(id) {
        Some(set) => Ok(set),
        None => Err(Ps2Error::InvalidScancodeId(id)),
    }
}

/// The subcommand that selects `set`, in contracts.
pub open spec fn spec_sub_command(set: ScancodeSet) -> u8 {
    match set {
        ScancodeSet::Set1 | ScancodeSet::Unset => 1u8,
        ScancodeSet::Set2 => 2u8,
        ScancodeSet::Set3 => 3u8,
    }
}

/// Sets the scancode set: sends the command `0xF0`, then the subcommand of
/// [`sub_command`], each with up to five resends. It succeeds where both
/// exchanges succeed, the second on the device as the first left it; its
/// error is the error of the first exchange, or that of the second after a
/// first that succeeded.
pub fn set_scancode_set<I: Ps2Io>(io: &mut I, set: ScancodeSet) -> (res: Result<(), Ps2Error>)
    ensures
        exists|r1: &mut I, first: Result<(), Ps2Error>|
            *r1 == *old(io) && #[trigger] call_ensures(
                send_with_ack::<I>,
                (r1, 0xF0u8, 5usize),
                first,
            ) && match first {
                Err(e) => res == Err::<(), Ps2Error>(e) && *final(r1) == *final(io),
                Ok(_) => exists|r2: &mut I|
                    *r2 == *final(r1) && *final(r2) == *final(io) && #[trigger] call_ensures(
                        send_with_ack::<I>,
                        (r2, spec_sub_command(set), 5usize),
                        res,
                    ),
            },
{
    match send_with_ack(io, CMD_SCANCODE_SET, MAX_RESENDS) {
        Ok(()) => {},
        Err(e) => {
            return Err(e);
        },
    }
    send_with_ack(io, sub_command(set), MAX_RESENDS)
}

/// Gets the current scancode set: sends the command `0xF0` and the subcommand
/// 0, each with up to five resends, then reads the identifier, which
/// [`scancode_reply`] judges. Its error is the error of the first exchange
/// that fails, the error of the read, or the identifier that names no set.
pub fn get_scancode_set<I: Ps2Io>(io: &mut I) -> (res: Result<ScancodeSet, Ps2Error>)
    ensures
        exists|r1: &mut I, first: Result<(), Ps2Error>|
            *r1 == *old(io) && #[trigger] call_ensures(
                send_with_ack::<I>,
                (r1, 0xF0u8, 5usize),
                first,
            ) && match first {
                Err(e) => res == Err::<ScancodeSet, Ps2Error>(e) && *final(r1) == *final(io),
                Ok(_) => exists|r2: &mut I, second: Result<(), Ps2Error>|
                    *r2 == *final(r1) && #[trigger] call_ensures(
                        send_with_ack::<I>,
                        (r2, 0x00u8, 5usize),
                        second,
                    ) && match second {
                        Err(e) => res == Err::<ScancodeSet, Ps2Error>(e)
                            && *final(r2) == *final(io),
                        Ok(_) => exists|r3: &mut I, id: Result<u8, Ps2Error>|
                            *r3 == *final(r2) && *final(r3) == *final(io) && #[trigger] call_ensures(
                                I::read_data,
                                (r3,),
                                id,
                            ) && res == match id {
                                Ok(b) => match spec_map_scancode_id(b) {
                                    Some(set) => Ok::<ScancodeSet, Ps2Error>(set),
                                    None => Err::<ScancodeSet, Ps2Error>(
                                        Ps2Error::InvalidScancodeId(b),
                                    ),
                                },
                                Err(e) => Err::<ScancodeSet, Ps2Error>(e),
                            },
                    },
            },
{
    match send_with_ack(io, CMD_SCANCODE_SET, MAX_RESENDS) {
        Ok(()) => {},
        Err(e) => {
            return Err(e);
        },
    }
    match send_with_ack(io, SUB_GET, MAX_RESENDS) {
        Ok(()) => {},
        Err(e) => {
            return Err(e);
        },
    }
    match io.read_data() {
        Ok(id) => scancode_reply(id),
        Err(e) => Err(e),
    }
}

} // verus!
