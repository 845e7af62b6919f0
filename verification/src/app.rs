//! The application-mode device handles.
//!
//! Once the application firmware runs, the driver can configure the
//! measurement cadence, test for a fresh sample, and read the raw or the
//! full decoded measurement.  [`Ccs811AwakeApp`] assumes the chip is
//! already awake; [`Ccs811App`] brackets every call between one wake-line
//! assertion and one release.

use vstd::prelude::*;

use crate::codec::data_ready;
use crate::codec::decode_algorithm_result;
use crate::codec::decode_device_errors;
use crate::codec::decode_raw;
use crate::codec::encode_measurement_mode;
use crate::codec::spec_encode_measurement_mode;
use crate::port::Event;
use crate::port::Port;
use crate::protocol::bus_step_frame;
use crate::protocol::data_step;
use crate::protocol::ev_gated_extension;
use crate::protocol::gated_frame;
use crate::protocol::lemma_data_step_no_pin;
use crate::protocol::lemma_gated_log;
use crate::protocol::lemma_raw_step_no_pin;
use crate::protocol::lemma_set_mode_step_no_pin;
use crate::protocol::lemma_status_step_no_pin;
use crate::protocol::merge_nb;
use crate::protocol::merge_result;
use crate::protocol::raw_step;
use crate::protocol::set_mode_step;
use crate::protocol::status_step;
use crate::protocol::wake_bracketed;
use crate::registers::FLAG_DATA_READY;
use crate::registers::FLAG_ERROR;
use crate::registers::REG_ALG_RESULT_DATA;
use crate::registers::REG_MEAS_MODE;
use crate::registers::REG_RAW_DATA;
use crate::registers::REG_STATUS;
use crate::registers::WAKE_DELAY_US;
use crate::types::AlgorithmResult;
use crate::types::Error;
use crate::types::ErrorAwake;
use crate::types::MeasurementMode;
use crate::types::NbError;

verus! {

/// An application-mode handle for a chip that is already awake.
pub struct Ccs811AwakeApp {
    /// The modelled transport.
    pub port: Port,
    /// The device bus address.
    pub address: u8,
    /// The last value written to the mode control register; the chip
    /// resets it to zero when the application starts.
    pub meas_mode_reg: u8,
}

impl Ccs811AwakeApp {
    /// A fresh application-mode handle, as produced right after the
    /// application firmware starts.
    pub fn new(port: Port, address: u8) -> (r: Ccs811AwakeApp)
        ensures
            r.port == port,
            r.address == address,
            r.meas_mode_reg == 0,
    {
        Ccs811AwakeApp { port, address, meas_mode_reg: 0 }
    }

    /// Gives the transport back to the caller.
    pub fn destroy(self) -> (r: Port)
        ensures
            r == self.port,
    {
        self.port
    }

    /// Writes the measurement cadence: the encoding of `mode` over the
    /// cached previous register value goes out in one single-register
    /// write, and the cache follows on success.
    pub fn set_measurement_mode(&mut self, mode: MeasurementMode) -> (r: Result<(), ErrorAwake>)
        ensures
            final(self).address == old(self).address,
            ({
                let t = set_mode_step(old(self).port, old(self).address, old(self).meas_mode_reg, mode);
                &&& r == t.result
                &&& bus_step_frame(old(self).port, final(self).port, t.events, t.bus_pos_after)
                &&& final(self).meas_mode_reg == if r is Ok {
                    spec_encode_measurement_mode(old(self).meas_mode_reg, mode)
                } else {
                    old(self).meas_mode_reg
                }
            }),
    {
        let ghost p0 = self.port;
        let ghost a0 = self.address;
        let ghost c0 = self.meas_mode_reg;
        let value = encode_measurement_mode(self.meas_mode_reg, mode);
        let res = match self.port.write_byte(self.address, REG_MEAS_MODE, value) {
            Ok(_) => {
                self.meas_mode_reg = value;
                Ok(())
            },
            Err(_) => Err(ErrorAwake::Bus),
        };
        proof {
            assert(self.port.log@ =~= p0.log@ + set_mode_step(p0, a0, c0, mode).events);
        }
        res
    }

    /// Tests the DATA_READY status bit: whether a fresh sample waits.
    pub fn has_data_ready(&mut self) -> (r: Result<bool, ErrorAwake>)
        ensures
            final(self).address == old(self).address,
            final(self).meas_mode_reg == old(self).meas_mode_reg,
            ({
                let t = status_step(old(self).port, old(self).address);
                &&& r == match t.result {
                    Ok(s) => Ok::<bool, ErrorAwake>(data_ready(s)),
                    Err(e) => Err::<bool, ErrorAwake>(e),
                }
                &&& bus_step_frame(old(self).port, final(self).port, t.events, t.bus_pos_after)
            }),
    {
        let ghost p0 = self.port;
        let ghost a0 = self.address;
        let res = match self.port.read_register(self.address, REG_STATUS, 1) {
            Ok(d) => Ok(d[0] & FLAG_DATA_READY != 0),
            Err(_) => Err(ErrorAwake::Bus),
        };
        proof {
            assert(self.port.log@ =~= p0.log@ + status_step(p0, a0).events);
        }
        res
    }

    /// Reads and decodes the two-byte raw sensor field into
    /// (current, voltage).
    pub fn raw_sample(&mut self) -> (r: Result<(u8, u16), ErrorAwake>)
        ensures
            final(self).address == old(self).address,
            final(self).meas_mode_reg == old(self).meas_mode_reg,
            ({
                let t = raw_step(old(self).port, old(self).address);
                &&& r == t.result
                &&& bus_step_frame(old(self).port, final(self).port, t.events, t.bus_pos_after)
            }),
    {
        let ghost p0 = self.port;
        let ghost a0 = self.address;
        let res = match self.port.read_register(self.address, REG_RAW_DATA, 2) {
            Ok(d) => Ok(decode_raw(d[0], d[1])),
            Err(_) => Err(ErrorAwake::Bus),
        };
        proof {
            assert(self.port.log@ =~= p0.log@ + raw_step(p0, a0).events);
        }
        res
    }

    /// Reads the eight-byte algorithm result in one transaction.  A set
    /// error bit yields the decoded chip error and never a partial
    /// result; a clear data-ready bit yields "try again later"; otherwise
    /// the full decoded measurement.
    pub fn read_algorithm_result(&mut self) -> (r: Result<AlgorithmResult, NbError<ErrorAwake>>)
        ensures
            final(self).address == old(self).address,
            final(self).meas_mode_reg == old(self).meas_mode_reg,
            ({
                let t = data_step(old(self).port, old(self).address);
                &&& r == t.result
                &&& bus_step_frame(old(self).port, final(self).port, t.events, t.bus_pos_after)
            }),
    {
        let ghost p0 = self.port;
        let ghost a0 = self.address;
        let res = match self.port.read_register(self.address, REG_ALG_RESULT_DATA, 8) {
            Ok(d) => {
                let status = d[4];
                if status & FLAG_ERROR != 0 {
                    Err(NbError::Other(ErrorAwake::Device(decode_device_errors(d[5]))))
                } else if status & FLAG_DATA_READY == 0 {
                    Err(NbError::WouldBlock)
                } else {
                    Ok(decode_algorithm_result(&d))
                }
            },
            Err(_) => Err(NbError::Other(ErrorAwake::Bus)),
        };
        proof {
            assert(self.port.log@ =~= p0.log@ + data_step(p0, a0).events);
        }
        res
    }
}

/// An application-mode handle that owns a wake line: every operation is
/// bracketed between driving the line low (with the settling delay) and
/// releasing it high, on every exit path.
pub struct Ccs811App {
    /// The inner awake-channel handle.
    pub dev: Ccs811AwakeApp,
}

impl Ccs811App {
    /// A fresh wake-gated application-mode handle.
    pub fn new(port: Port, address: u8) -> (r: Ccs811App)
        ensures
            r.dev.port == port,
            r.dev.address == address,
            r.dev.meas_mode_reg == 0,
    {
        Ccs811App { dev: Ccs811AwakeApp::new(port, address) }
    }

    /// Gives the transport back to the caller.
    pub fn destroy(self) -> (r: Port)
        ensures
            r == self.dev.port,
    {
        self.dev.port
    }

    /// Wake-gated [`Ccs811AwakeApp::set_measurement_mode`].  When the
    /// inner write succeeded but the wake-line release fails, the pin
    /// error is reported instead of the success; the cache still follows
    /// the write, which did reach the chip.
    pub fn set_measurement_mode(&mut self, mode: MeasurementMode) -> (r: Result<(), Error>)
        ensures
            final(self).dev.address == old(self).dev.address,
            ({
                let p = old(self).dev.port;
                if !p.pin_ok(0) {
                    &&& r == Err::<(), Error>(Error::Pin)
                    &&& gated_frame(
                        p,
                        final(self).dev.port,
                        seq![Event::PinLow],
                        p.bus_pos as int,
                        p.pin_pos_after1(),
                    )
                    &&& final(self).dev.meas_mode_reg == old(self).dev.meas_mode_reg
                } else {
                    let t = set_mode_step(p, old(self).dev.address, old(self).dev.meas_mode_reg, mode);
                    &&& r == merge_result(t.result, p.pin_ok(1))
                    &&& gated_frame(
                        p,
                        final(self).dev.port,
                        ev_gated_extension(t.events),
                        t.bus_pos_after,
                        p.pin_pos_after2(),
                    )
                    &&& final(self).dev.meas_mode_reg == if t.result is Ok {
                        spec_encode_measurement_mode(old(self).dev.meas_mode_reg, mode)
                    } else {
                        old(self).dev.meas_mode_reg
                    }
                    &&& wake_bracketed(final(self).dev.port.log@.skip(p.log@.len() as int))
                }
            }),
    {
        let ghost p0 = self.dev.port;
        let ghost addr0 = self.dev.address;
        let ghost cache0 = self.dev.meas_mode_reg;
        if let Err(_) = self.dev.port.pin_set_low() {
            proof {
                assert(self.dev.port.log@ =~= p0.log@ + seq![Event::PinLow]);
            }
            return Err(Error::Pin);
        }
        self.dev.port.delay_us(WAKE_DELAY_US);
        let inner = self.dev.set_measurement_mode(mode);
        let released = self.dev.port.pin_set_high();
        proof {
            let t = set_mode_step(p0, addr0, cache0, mode);
            lemma_set_mode_step_no_pin(p0, addr0, cache0, mode);
            assert(self.dev.port.log@ =~= p0.log@ + ev_gated_extension(t.events));
            lemma_gated_log(p0, self.dev.port, t.events);
        }
        match (inner, released) {
            (Ok(_), Ok(_)) => Ok(()),
            (Ok(_), Err(_)) => Err(Error::Pin),
            (Err(e), _) => Err(Error::from_awake(e)),
        }
    }

    /// Wake-gated [`Ccs811AwakeApp::has_data_ready`].
    pub fn has_data_ready(&mut self) -> (r: Result<bool, Error>)
        ensures
            final(self).dev.address == old(self).dev.address,
            final(self).dev.meas_mode_reg == old(self).dev.meas_mode_reg,
            ({
                let p = old(self).dev.port;
                if !p.pin_ok(0) {
                    &&& r == Err::<bool, Error>(Error::Pin)
                    &&& gated_frame(
                        p,
                        final(self).dev.port,
                        seq![Event::PinLow],
                        p.bus_pos as int,
                        p.pin_pos_after1(),
                    )
                } else {
                    let t = status_step(p, old(self).dev.address);
                    let inner = match t.result {
                        Ok(s) => Ok::<bool, ErrorAwake>(data_ready(s)),
                        Err(e) => Err::<bool, ErrorAwake>(e),
                    };
                    &&& r == merge_result(inner, p.pin_ok(1))
                    &&& gated_frame(
                        p,
                        final(self).dev.port,
                        ev_gated_extension(t.events),
                        t.bus_pos_after,
                        p.pin_pos_after2(),
                    )
                    &&& wake_bracketed(final(self).dev.port.log@.skip(p.log@.len() as int))
                }
            }),
    {
        let ghost p0 = self.dev.port;
        let ghost addr0 = self.dev.address;
        if let Err(_) = self.dev.port.pin_set_low() {
            proof {
                assert(self.dev.port.log@ =~= p0.log@ + seq![Event::PinLow]);
            }
            return Err(Error::Pin);
        }
        self.dev.port.delay_us(WAKE_DELAY_US);
        let inner = self.dev.has_data_ready();
        let released = self.dev.port.pin_set_high();
        proof {
            let t = status_step(p0, addr0);
            lemma_status_step_no_pin(p0, addr0);
            assert(self.dev.port.log@ =~= p0.log@ + ev_gated_extension(t.events));
            lemma_gated_log(p0, self.dev.port, t.events);
        }
        match (inner, released) {
            (Ok(v), Ok(_)) => Ok(v),
            (Ok(_), Err(_)) => Err(Error::Pin),
            (Err(e), _) => Err(Error::from_awake(e)),
        }
    }

    /// Wake-gated [`Ccs811AwakeApp::raw_sample`].
    pub fn raw_sample(&mut self) -> (r: Result<(u8, u16), Error>)
        ensures
            final(self).dev.address == old(self).dev.address,
            final(self).dev.meas_mode_reg == old(self).dev.meas_mode_reg,
            ({
                let p = old(self).dev.port;
                if !p.pin_ok(0) {
                    &&& r == Err::<(u8, u16), Error>(Error::Pin)
                    &&& gated_frame(
                        p,
                        final(self).dev.port,
                        seq![Event::PinLow],
                        p.bus_pos as int,
                        p.pin_pos_after1(),
                    )
                } else {
                    let t = raw_step(p, old(self).dev.address);
                    &&& r == merge_result(t.result, p.pin_ok(1))
                    &&& gated_frame(
                        p,
                        final(self).dev.port,
                        ev_gated_extension(t.events),
                        t.bus_pos_after,
                        p.pin_pos_after2(),
                    )
                    &&& wake_bracketed(final(self).dev.port.log@.skip(p.log@.len() as int))
                }
            }),
    {
        let ghost p0 = self.dev.port;
        let ghost addr0 = self.dev.address;
        if let Err(_) = self.dev.port.pin_set_low() {
            proof {
                assert(self.dev.port.log@ =~= p0.log@ + seq![Event::PinLow]);
            }
            return Err(Error::Pin);
        }
        self.dev.port.delay_us(WAKE_DELAY_US);
        let inner = self.dev.raw_sample();
        let released = self.dev.port.pin_set_high();
        proof {
            let t = raw_step(p0, addr0);
            lemma_raw_step_no_pin(p0, addr0);
            assert(self.dev.port.log@ =~= p0.log@ + ev_gated_extension(t.events));
            lemma_gated_log(p0, self.dev.port, t.events);
        }
        match (inner, released) {
            (Ok(v), Ok(_)) => Ok(v),
            (Ok(_), Err(_)) => Err(Error::Pin),
            (Err(e), _) => Err(Error::from_awake(e)),
        }
    }

    /// Wake-gated [`Ccs811AwakeApp::read_algorithm_result`].
    pub fn read_algorithm_result(&mut self) -> (r: Result<AlgorithmResult, NbError<Error>>)
        ensures
            final(self).dev.address == old(self).dev.address,
            final(self).dev.meas_mode_reg == old(self).dev.meas_mode_reg,
            ({
                let p = old(self).dev.port;
                if !p.pin_ok(0) {
                    &&& r == Err::<AlgorithmResult, NbError<Error>>(NbError::Other(Error::Pin))
                    &&& gated_frame(
                        p,
                        final(self).dev.port,
                        seq![Event::PinLow],
                        p.bus_pos as int,
                        p.pin_pos_after1(),
                    )
                } else {
                    let t = data_step(p, old(self).dev.address);
                    &&& r == merge_nb(t.result, p.pin_ok(1))
                    &&& gated_frame(
                        p,
                        final(self).dev.port,
                        ev_gated_extension(t.events),
                        t.bus_pos_after,
                        p.pin_pos_after2(),
                    )
                    &&& wake_bracketed(final(self).dev.port.log@.skip(p.log@.len() as int))
                }
            }),
    {
        let ghost p0 = self.dev.port;
        let ghost addr0 = self.dev.address;
        if let Err(_) = self.dev.port.pin_set_low() {
            proof {
                assert(self.dev.port.log@ =~= p0.log@ + seq![Event::PinLow]);
            }
            return Err(NbError::Other(Error::Pin));
        }
        self.dev.port.delay_us(WAKE_DELAY_US);
        let inner = self.dev.read_algorithm_result();
        let released = self.dev.port.pin_set_high();
        proof {
            let t = data_step(p0, addr0);
            lemma_data_step_no_pin(p0, addr0);
            assert(self.dev.port.log@ =~= p0.log@ + ev_gated_extension(t.events));
            lemma_gated_log(p0, self.dev.port, t.events);
        }
        match (inner, released) {
            (Ok(v), Ok(_)) => Ok(v),
            (Ok(_), Err(_)) => Err(NbError::Other(Error::Pin)),
            (Err(NbError::WouldBlock), Ok(_)) => Err(NbError::WouldBlock),
            (Err(NbError::WouldBlock), Err(_)) => Err(NbError::Other(Error::Pin)),
            (Err(NbError::Other(e)), _) => Err(NbError::Other(Error::from_awake(e))),
        }
    }
}

} // verus!
