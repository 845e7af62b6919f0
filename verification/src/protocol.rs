//! The mathematical model of the protocol.
//!
//! Each driver operation that assumes an awake chip is one *step*: a short
//! exchange on the bus whose actions and outcome are a function of the
//! scripted replies alone.  The spec functions here compute that step, and
//! the executable operations in [`crate::boot`] and [`crate::app`] are
//! proved to agree with them exactly.  The wake-gated operations bracket a
//! step between one low and one high wake-line transition; the bracket law
//! is stated and proved here as well.

use vstd::prelude::*;

use crate::codec::app_valid;
use crate::codec::data_ready;
use crate::codec::flag_set;
use crate::codec::spec_decode_algorithm_result;
use crate::codec::spec_decode_device_errors;
use crate::codec::spec_decode_raw;
use crate::codec::spec_encode_measurement_mode;
use crate::codec::status_error;
use crate::port::ev_delay;
use crate::port::ev_read;
use crate::port::ev_write_byte;
use crate::port::ev_write_command;
use crate::port::ev_write_quad;
use crate::port::Event;
use crate::port::Port;
use crate::registers::ERASE_MAGIC_0;
use crate::registers::ERASE_MAGIC_1;
use crate::registers::ERASE_MAGIC_2;
use crate::registers::ERASE_MAGIC_3;
use crate::registers::FLAG_APP_ERASE;
use crate::registers::FLAG_APP_VERIFY;
use crate::registers::REG_ALG_RESULT_DATA;
use crate::registers::REG_APP_ERASE;
use crate::registers::REG_APP_START;
use crate::registers::REG_APP_VERIFY;
use crate::registers::REG_ERROR_ID;
use crate::registers::REG_MEAS_MODE;
use crate::registers::REG_RAW_DATA;
use crate::registers::REG_STATUS;
use crate::registers::WAKE_DELAY_US;
use crate::types::AlgorithmResult;
use crate::types::ErrorAwake;
use crate::types::NbError;

verus! {

/// The outcome of one awake-channel operation: its result, the bus actions
/// it issues in order, and where the reply script stands afterwards.
pub ghost struct Step<T> {
    /// What the operation returns.
    pub result: T,
    /// The bus actions issued, in order.
    pub events: Seq<Event>,
    /// The bus script position after the operation.
    pub bus_pos_after: int,
}

/// Frame of an awake-channel operation: the scripts and the wake line are
/// untouched, the given actions are appended to the record, and the reply
/// script advances as computed.
pub open spec fn bus_step_frame(pre: Port, post: Port, events: Seq<Event>, pos_after: int) -> bool {
    &&& post.bus_script == pre.bus_script
    &&& post.pin_script == pre.pin_script
    &&& post.pin_pos == pre.pin_pos
    &&& post.log@ == pre.log@ + events
    &&& post.bus_pos == pos_after
}

/// Frame of a wake-gated operation: the scripts are untouched and both the
/// reply script and the pin script advance as computed.
pub open spec fn gated_frame(
    pre: Port,
    post: Port,
    events: Seq<Event>,
    bus_pos_after: int,
    pin_pos_after: int,
) -> bool {
    &&& post.bus_script == pre.bus_script
    &&& post.pin_script == pre.pin_script
    &&& post.log@ == pre.log@ + events
    &&& post.bus_pos == bus_pos_after
    &&& post.pin_pos == pin_pos_after
}

/// A plain status-register read.
pub open spec fn status_step(p: Port, addr: u8) -> Step<Result<u8, ErrorAwake>> {
    let events = seq![ev_read(addr, REG_STATUS, 1)];
    if p.read_ok(0, 1) {
        Step { result: Ok(p.reply_bytes(0)[0]), events, bus_pos_after: p.bus_pos_after1() }
    } else {
        Step { result: Err(ErrorAwake::Bus), events, bus_pos_after: p.bus_pos_after1() }
    }
}

/// The application start transition: a status read, then — only if the
/// status byte shows a valid application image — one zero-length write to
/// the start command register.
pub open spec fn start_step(p: Port, addr: u8) -> Step<Result<(), ErrorAwake>> {
    let rd = ev_read(addr, REG_STATUS, 1);
    if !p.read_ok(0, 1) {
        Step { result: Err(ErrorAwake::Bus), events: seq![rd], bus_pos_after: p.bus_pos_after1() }
    } else if !app_valid(p.reply_bytes(0)[0]) {
        Step {
            result: Err(ErrorAwake::NoValidApp),
            events: seq![rd],
            bus_pos_after: p.bus_pos_after1(),
        }
    } else {
        let events = seq![rd, ev_write_command(addr, REG_APP_START)];
        if p.write_ok(1) {
            Step { result: Ok(()), events, bus_pos_after: p.bus_pos_after2() }
        } else {
            Step { result: Err(ErrorAwake::Bus), events, bus_pos_after: p.bus_pos_after2() }
        }
    }
}

/// The status bit that reports a verify (or erase) operation as done.
pub open spec fn poll_done_flag(erase: bool) -> u8 {
    if erase {
        FLAG_APP_ERASE
    } else {
        FLAG_APP_VERIFY
    }
}

/// The command that starts a verify (or erase) operation: a zero-length
/// write, or the four-byte magic sequence.
pub open spec fn poll_command_event(addr: u8, erase: bool) -> Event {
    if erase {
        ev_write_quad(addr, REG_APP_ERASE, ERASE_MAGIC_0, ERASE_MAGIC_1, ERASE_MAGIC_2, ERASE_MAGIC_3)
    } else {
        ev_write_command(addr, REG_APP_VERIFY)
    }
}

/// One poll of the verify or erase operation.  A status read first; while
/// the done bit is clear the command is issued once (on the first poll
/// only) and the outcome is "try again later"; once the done bit is set,
/// the error bit decides between success and the decoded chip error, read
/// from the error bitmap register.
pub open spec fn poll_step(p: Port, addr: u8, pending: bool, erase: bool) -> Step<
    Result<(), NbError<ErrorAwake>>,
> {
    let rd = ev_read(addr, REG_STATUS, 1);
    if !p.read_ok(0, 1) {
        Step {
            result: Err(NbError::Other(ErrorAwake::Bus)),
            events: seq![rd],
            bus_pos_after: p.bus_pos_after1(),
        }
    } else {
        let status = p.reply_bytes(0)[0];
        if !flag_set(status, poll_done_flag(erase)) {
            if pending {
                Step {
                    result: Err(NbError::WouldBlock),
                    events: seq![rd],
                    bus_pos_after: p.bus_pos_after1(),
                }
            } else {
                let events = seq![rd, poll_command_event(addr, erase)];
                if p.write_ok(1) {
                    Step {
                        result: Err(NbError::WouldBlock),
                        events,
                        bus_pos_after: p.bus_pos_after2(),
                    }
                } else {
                    Step {
                        result: Err(NbError::Other(ErrorAwake::Bus)),
                        events,
                        bus_pos_after: p.bus_pos_after2(),
                    }
                }
            }
        } else if status_error(status) {
            let events = seq![rd, ev_read(addr, REG_ERROR_ID, 1)];
            if p.read_ok(1, 1) {
                Step {
                    result: Err(
                        NbError::Other(
                            ErrorAwake::Device(spec_decode_device_errors(p.reply_bytes(1)[0])),
                        ),
                    ),
                    events,
                    bus_pos_after: p.bus_pos_after2(),
                }
            } else {
                Step {
                    result: Err(NbError::Other(ErrorAwake::Bus)),
                    events,
                    bus_pos_after: p.bus_pos_after2(),
                }
            }
        } else {
            Step { result: Ok(()), events: seq![rd], bus_pos_after: p.bus_pos_after1() }
        }
    }
}

/// The measurement-mode write: one single-register write of the encoding
/// of the requested mode over the cached previous register value.
pub open spec fn set_mode_step(
    p: Port,
    addr: u8,
    cache: u8,
    mode: crate::types::MeasurementMode,
) -> Step<Result<(), ErrorAwake>> {
    let events = seq![
        ev_write_byte(addr, REG_MEAS_MODE, spec_encode_measurement_mode(cache, mode)),
    ];
    if p.write_ok(0) {
        Step { result: Ok(()), events, bus_pos_after: p.bus_pos_after1() }
    } else {
        Step { result: Err(ErrorAwake::Bus), events, bus_pos_after: p.bus_pos_after1() }
    }
}

/// The raw-sample read: one two-byte read, decoded.
pub open spec fn raw_step(p: Port, addr: u8) -> Step<Result<(u8, u16), ErrorAwake>> {
    let events = seq![ev_read(addr, REG_RAW_DATA, 2)];
    if p.read_ok(0, 2) {
        Step {
            result: Ok(spec_decode_raw(p.reply_bytes(0)[0], p.reply_bytes(0)[1])),
            events,
            bus_pos_after: p.bus_pos_after1(),
        }
    } else {
        Step { result: Err(ErrorAwake::Bus), events, bus_pos_after: p.bus_pos_after1() }
    }
}

/// The algorithm-result read: a single eight-byte read.  The status byte
/// travels at offset 4 and the error bitmap at offset 5; when the error
/// bit is set the decoded chip error is returned and never a partial
/// result, when the data-ready bit is clear the outcome is "try again
/// later", and otherwise the full decoded measurement.
pub open spec fn data_step(p: Port, addr: u8) -> Step<Result<AlgorithmResult, NbError<ErrorAwake>>> {
    let events = seq![ev_read(addr, REG_ALG_RESULT_DATA, 8)];
    if !p.read_ok(0, 8) {
        Step {
            result: Err(NbError::Other(ErrorAwake::Bus)),
            events,
            bus_pos_after: p.bus_pos_after1(),
        }
    } else {
        let d = p.reply_bytes(0);
        if status_error(d[4]) {
            Step {
                result: Err(NbError::Other(ErrorAwake::Device(spec_decode_device_errors(d[5])))),
                events,
                bus_pos_after: p.bus_pos_after1(),
            }
        } else if !data_ready(d[4]) {
            Step {
                result: Err(NbError::WouldBlock),
                events,
                bus_pos_after: p.bus_pos_after1(),
            }
        } else {
            Step {
                result: Ok(spec_decode_algorithm_result(d)),
                events,
                bus_pos_after: p.bus_pos_after1(),
            }
        }
    }
}

/// How a wake-gated operation reports a non-blocking inner outcome once
/// the wake line has been released: a genuine inner error always wins over
/// a release failure, while a success or a "try again later" outcome is
/// replaced by the pin error when the release fails, since the chip's
/// power state is then unconfirmed.
pub open spec fn merge_nb<T>(inner: Result<T, NbError<ErrorAwake>>, release_ok: bool) -> Result<
    T,
    NbError<crate::types::Error>,
> {
    match inner {
        Ok(v) => if release_ok {
            Ok(v)
        } else {
            Err(NbError::Other(crate::types::Error::Pin))
        },
        Err(NbError::WouldBlock) => if release_ok {
            Err(NbError::WouldBlock)
        } else {
            Err(NbError::Other(crate::types::Error::Pin))
        },
        Err(NbError::Other(e)) => Err(NbError::Other(crate::types::spec_error_from_awake(e))),
    }
}

/// As [`merge_nb`], for operations whose only outcomes are success and
/// failure.
pub open spec fn merge_result<T>(inner: Result<T, ErrorAwake>, release_ok: bool) -> Result<
    T,
    crate::types::Error,
> {
    match inner {
        Ok(v) => if release_ok {
            Ok(v)
        } else {
            Err(crate::types::Error::Pin)
        },
        Err(e) => Err(crate::types::spec_error_from_awake(e)),
    }
}

/// Whether an event is a wake-line transition.
pub open spec fn is_pin_event(e: Event) -> bool {
    e == Event::PinLow || e == Event::PinHigh
}

/// The wake bracket shape: the actions of one gated call start by driving
/// the wake line low, end by releasing it high, and touch it at no other
/// point — so the line is low during, and only during, the bus exchange.
pub open spec fn wake_bracketed(ext: Seq<Event>) -> bool {
    &&& ext.len() >= 2
    &&& ext[0] == Event::PinLow
    &&& ext[ext.len() - 1] == Event::PinHigh
    &&& forall|i: int| 0 < i < ext.len() - 1 ==> !is_pin_event(#[trigger] ext[i])
}

/// A sequence of bus actions contains no wake-line transition.
pub open spec fn no_pin_events(es: Seq<Event>) -> bool {
    forall|i: int| 0 <= i < es.len() ==> !is_pin_event(#[trigger] es[i])
}

/// Every wake-gated call that gets past asserting the wake line produces
/// exactly one low-then-high transition pair around its bus exchange,
/// whatever the exchange does: the extension it appends to the record is
/// wake-bracketed as soon as the bracketed actions themselves keep off the
/// wake line.
pub proof fn lemma_wake_bracket(middle: Seq<Event>)
    requires
        no_pin_events(middle),
    ensures
        wake_bracketed(
            seq![Event::PinLow, ev_delay(WAKE_DELAY_US)] + middle + seq![Event::PinHigh],
        ),
{
    let ext = seq![Event::PinLow, ev_delay(WAKE_DELAY_US)] + middle + seq![Event::PinHigh];
    assert(ext.len() == middle.len() + 3);
    assert(ext[0] == Event::PinLow);
    assert(ext[ext.len() - 1] == Event::PinHigh);
    assert forall|i: int| 0 < i < ext.len() - 1 implies !is_pin_event(ext[i]) by {
        if i == 1 {
            assert(ext[i] == ev_delay(WAKE_DELAY_US));
        } else {
            assert(ext[i] == middle[i - 2]);
        }
    }
}

/// Without a valid application image the start transition fails with
/// `NoValidApp` after the status read alone: no command and no further
/// bus traffic is issued, for every such status byte.
pub proof fn lemma_start_no_valid_app(p: Port, addr: u8, s: u8)
    requires
        p.read_ok(0, 1),
        p.reply_bytes(0)[0] == s,
        !app_valid(s),
    ensures
        start_step(p, addr).result == Err::<(), ErrorAwake>(ErrorAwake::NoValidApp),
        start_step(p, addr).events == seq![ev_read(addr, REG_STATUS, 1)],
{
}

/// With a valid application image and a sound bus, the start transition
/// issues exactly one zero-length write to the start command register
/// after the status read, and succeeds, for every such status byte.
pub proof fn lemma_start_valid_app(p: Port, addr: u8, s: u8)
    requires
        p.read_ok(0, 1),
        p.reply_bytes(0)[0] == s,
        app_valid(s),
        p.write_ok(1),
    ensures
        start_step(p, addr).result == Ok::<(), ErrorAwake>(()),
        start_step(p, addr).events == seq![
            ev_read(addr, REG_STATUS, 1),
            ev_write_command(addr, REG_APP_START),
        ],
{
}

/// The three-call shape of the verify and erase poll protocol, for every
/// status byte with the relevant bits so set.  The first poll (nothing
/// pending, done bit clear) issues exactly one command write after the
/// status read — the zero-length verify command, or the four-byte erase
/// magic sequence — and reports "try again later".  A later poll with the
/// done bit still clear issues no further command.  A poll that finds the
/// done bit set and the error bit clear succeeds with the status read
/// alone.
pub proof fn lemma_poll_sequence(
    p1: Port,
    p2: Port,
    p3: Port,
    addr: u8,
    erase: bool,
    s1: u8,
    s2: u8,
    s3: u8,
)
    requires
        p1.read_ok(0, 1),
        p1.reply_bytes(0)[0] == s1,
        !flag_set(s1, poll_done_flag(erase)),
        p1.write_ok(1),
        p2.read_ok(0, 1),
        p2.reply_bytes(0)[0] == s2,
        !flag_set(s2, poll_done_flag(erase)),
        p3.read_ok(0, 1),
        p3.reply_bytes(0)[0] == s3,
        flag_set(s3, poll_done_flag(erase)),
        !status_error(s3),
    ensures
        poll_step(p1, addr, false, erase).result == Err::<(), NbError<ErrorAwake>>(
            NbError::WouldBlock,
        ),
        poll_step(p1, addr, false, erase).events == seq![
            ev_read(addr, REG_STATUS, 1),
            poll_command_event(addr, erase),
        ],
        poll_step(p2, addr, true, erase).result == Err::<(), NbError<ErrorAwake>>(
            NbError::WouldBlock,
        ),
        poll_step(p2, addr, true, erase).events == seq![ev_read(addr, REG_STATUS, 1)],
        poll_step(p3, addr, true, erase).result == Ok::<(), NbError<ErrorAwake>>(()),
        poll_step(p3, addr, true, erase).events == seq![ev_read(addr, REG_STATUS, 1)],
{
}

/// An algorithm-result read whose status byte has the error bit set
/// returns the decoded chip error and never a partial result, whatever
/// the other six bytes hold.
pub proof fn lemma_error_never_partial(p: Port, addr: u8)
    requires
        p.read_ok(0, 8),
        status_error(p.reply_bytes(0)[4]),
    ensures
        data_step(p, addr).result == Err::<AlgorithmResult, NbError<ErrorAwake>>(
            NbError::Other(ErrorAwake::Device(spec_decode_device_errors(p.reply_bytes(0)[5]))),
        ),
{
}

/// The record extension of a wake-gated call that got past asserting the
/// wake line: the bracketed bus actions between the assert-plus-delay and
/// the release.
pub open spec fn ev_gated_extension(middle: Seq<Event>) -> Seq<Event> {
    seq![Event::PinLow, ev_delay(WAKE_DELAY_US)] + middle + seq![Event::PinHigh]
}

/// After a full wake bracket the record extension is exactly
/// [`ev_gated_extension`] of the bracketed actions, and it is
/// wake-bracketed.
pub proof fn lemma_gated_log(pre: Port, post: Port, middle: Seq<Event>)
    requires
        no_pin_events(middle),
        post.log@ == pre.log@ + ev_gated_extension(middle),
    ensures
        post.log@.skip(pre.log@.len() as int) == ev_gated_extension(middle),
        wake_bracketed(post.log@.skip(pre.log@.len() as int)),
{
    assert(post.log@.skip(pre.log@.len() as int) =~= ev_gated_extension(middle));
    lemma_wake_bracket(middle);
}

/// No step of the awake channel touches the wake line: a status read,
pub proof fn lemma_status_step_no_pin(p: Port, addr: u8)
    ensures
        no_pin_events(status_step(p, addr).events),
{
}

/// ... the application start transition,
pub proof fn lemma_start_step_no_pin(p: Port, addr: u8)
    ensures
        no_pin_events(start_step(p, addr).events),
{
}

/// ... a verify or erase poll,
pub proof fn lemma_poll_step_no_pin(p: Port, addr: u8, pending: bool, erase: bool)
    ensures
        no_pin_events(poll_step(p, addr, pending, erase).events),
{
}

/// ... the measurement-mode write,
pub proof fn lemma_set_mode_step_no_pin(
    p: Port,
    addr: u8,
    cache: u8,
    mode: crate::types::MeasurementMode,
)
    ensures
        no_pin_events(set_mode_step(p, addr, cache, mode).events),
{
}

/// ... the raw-sample read,
pub proof fn lemma_raw_step_no_pin(p: Port, addr: u8)
    ensures
        no_pin_events(raw_step(p, addr).events),
{
}

/// ... and the algorithm-result read.
pub proof fn lemma_data_step_no_pin(p: Port, addr: u8)
    ensures
        no_pin_events(data_step(p, addr).events),
{
}

} // verus!
