//! The boot-mode device handles.
//!
//! After power-up or reset the chip runs its boot loader.  In that mode the
//! driver can test whether a valid application image is present, start the
//! application (consuming the boot handle and producing an application
//! handle), and drive the multi-poll firmware verify and erase operations.
//! [`Ccs811AwakeBoot`] assumes the chip is already awake and never touches
//! the wake line; [`Ccs811Boot`] brackets every call between one wake-line
//! assertion and one release.

use vstd::prelude::*;

use crate::app::Ccs811App;
use crate::app::Ccs811AwakeApp;
use crate::codec::app_valid;
use crate::codec::decode_device_errors;
use crate::port::Event;
use crate::port::Port;
use crate::protocol::bus_step_frame;
use crate::protocol::ev_gated_extension;
use crate::protocol::gated_frame;
use crate::protocol::lemma_gated_log;
use crate::protocol::lemma_poll_step_no_pin;
use crate::protocol::lemma_start_step_no_pin;
use crate::protocol::lemma_status_step_no_pin;
use crate::protocol::merge_nb;
use crate::protocol::merge_result;
use crate::protocol::poll_step;
use crate::protocol::start_step;
use crate::protocol::status_step;
use crate::protocol::wake_bracketed;
use crate::registers::ERASE_MAGIC_0;
use crate::registers::ERASE_MAGIC_1;
use crate::registers::ERASE_MAGIC_2;
use crate::registers::ERASE_MAGIC_3;
use crate::registers::FLAG_APP_ERASE;
use crate::registers::FLAG_APP_VALID;
use crate::registers::FLAG_APP_VERIFY;
use crate::registers::FLAG_ERROR;
use crate::registers::REG_APP_ERASE;
use crate::registers::REG_APP_START;
use crate::registers::REG_APP_VERIFY;
use crate::registers::REG_ERROR_ID;
use crate::registers::REG_STATUS;
use crate::registers::WAKE_DELAY_US;
use crate::types::Error;
use crate::types::ErrorAwake;
use crate::types::ModeChangeError;
use crate::types::NbError;

verus! {

/// A boot-mode handle for a chip that is already awake (no wake line is
/// configured, or the caller holds it asserted).
pub struct Ccs811AwakeBoot {
    /// The modelled transport.
    pub port: Port,
    /// The device bus address.
    pub address: u8,
    /// Whether a firmware verify was issued and has not completed yet.
    pub verify_pending: bool,
    /// Whether a firmware erase was issued and has not completed yet.
    pub erase_pending: bool,
}

impl Ccs811AwakeBoot {
    /// A fresh boot-mode handle with no operation in flight.
    pub fn new(port: Port, address: u8) -> (r: Ccs811AwakeBoot)
        ensures
            r.port == port,
            r.address == address,
            !r.verify_pending,
            !r.erase_pending,
    {
        Ccs811AwakeBoot { port, address, verify_pending: false, erase_pending: false }
    }

    /// Gives the transport back to the caller.
    pub fn destroy(self) -> (r: Port)
        ensures
            r == self.port,
    {
        self.port
    }

    /// Reads the status register.
    pub fn read_status(&mut self) -> (r: Result<u8, ErrorAwake>)
        ensures
            final(self).address == old(self).address,
            final(self).verify_pending == old(self).verify_pending,
            final(self).erase_pending == old(self).erase_pending,
            ({
                let t = status_step(old(self).port, old(self).address);
                &&& r == t.result
                &&& bus_step_frame(old(self).port, final(self).port, t.events, t.bus_pos_after)
            }),
    {
        let ghost p0 = self.port;
        let ghost a0 = self.address;
        let res = match self.port.read_register(self.address, REG_STATUS, 1) {
            Ok(d) => Ok(d[0]),
            Err(_) => Err(ErrorAwake::Bus),
        };
        proof {
            assert(self.port.log@ =~= p0.log@ + status_step(p0, a0).events);
        }
        res
    }

    /// Tests the APP_VALID status bit: whether a valid application
    /// firmware image is present.  Read-only; changes no state.
    pub fn has_valid_app(&mut self) -> (r: Result<bool, ErrorAwake>)
        ensures
            final(self).address == old(self).address,
            final(self).verify_pending == old(self).verify_pending,
            final(self).erase_pending == old(self).erase_pending,
            ({
                let t = status_step(old(self).port, old(self).address);
                &&& r == match t.result {
                    Ok(s) => Ok::<bool, ErrorAwake>(app_valid(s)),
                    Err(e) => Err::<bool, ErrorAwake>(e),
                }
                &&& bus_step_frame(old(self).port, final(self).port, t.events, t.bus_pos_after)
            }),
    {
        match self.read_status() {
            Ok(status) => Ok(status & FLAG_APP_VALID != 0),
            Err(e) => Err(e),
        }
    }

    /// Starts the application firmware, consuming the boot handle.
    ///
    /// The status register is read first; without a valid application
    /// image the call fails with `NoValidApp`, issues no further bus
    /// traffic and hands the unchanged boot handle back.  With a valid
    /// image exactly one zero-length write goes to the start command
    /// register; on success the same transport and address come back as an
    /// application-mode handle, on a bus fault the boot handle comes back
    /// with the error.
    pub fn start_application(self) -> (r: Result<
        Ccs811AwakeApp,
        ModeChangeError<Ccs811AwakeBoot, ErrorAwake>,
    >)
        ensures
            ({
                let t = start_step(self.port, self.address);
                match r {
                    Ok(app) => {
                        &&& t.result is Ok
                        &&& bus_step_frame(self.port, app.port, t.events, t.bus_pos_after)
                        &&& app.address == self.address
                        &&& app.meas_mode_reg == 0
                    },
                    Err(mce) => {
                        &&& t.result matches Err(e) && mce.error == e
                        &&& bus_step_frame(self.port, mce.dev.port, t.events, t.bus_pos_after)
                        &&& mce.dev.address == self.address
                        &&& mce.dev.verify_pending == self.verify_pending
                        &&& mce.dev.erase_pending == self.erase_pending
                    },
                }
            }),
    {
        let mut dev = self;
        let ghost p0 = dev.port;
        let ghost a0 = dev.address;
        let status_res = dev.port.read_register(dev.address, REG_STATUS, 1);
        match status_res {
            Err(_) => {
                proof {
                    assert(dev.port.log@ =~= p0.log@ + start_step(p0, a0).events);
                }
                Err(ModeChangeError { dev, error: ErrorAwake::Bus })
            },
            Ok(d) => {
                let status = d[0];
                if status & FLAG_APP_VALID == 0 {
                    proof {
                        assert(dev.port.log@ =~= p0.log@ + start_step(p0, a0).events);
                    }
                    Err(ModeChangeError { dev, error: ErrorAwake::NoValidApp })
                } else {
                    let issued = dev.port.write_command(dev.address, REG_APP_START);
                    proof {
                        assert(dev.port.log@ =~= p0.log@ + start_step(p0, a0).events);
                    }
                    match issued {
                        Ok(_) => Ok(
                            Ccs811AwakeApp { port: dev.port, address: dev.address, meas_mode_reg: 0 },
                        ),
                        Err(_) => Err(ModeChangeError { dev, error: ErrorAwake::Bus }),
                    }
                }
            },
        }
    }

    /// One poll of the firmware verify operation; see [`poll_step`].
    pub fn verify_application(&mut self) -> (r: Result<(), NbError<ErrorAwake>>)
        ensures
            final(self).address == old(self).address,
            final(self).erase_pending == old(self).erase_pending,
            final(self).verify_pending == (r matches Err(NbError::WouldBlock)),
            ({
                let t = poll_step(old(self).port, old(self).address, old(self).verify_pending, false);
                &&& r == t.result
                &&& bus_step_frame(old(self).port, final(self).port, t.events, t.bus_pos_after)
            }),
    {
        self.poll_application(false)
    }

    /// One poll of the firmware erase operation; see [`poll_step`].
    pub fn erase_application(&mut self) -> (r: Result<(), NbError<ErrorAwake>>)
        ensures
            final(self).address == old(self).address,
            final(self).verify_pending == old(self).verify_pending,
            final(self).erase_pending == (r matches Err(NbError::WouldBlock)),
            ({
                let t = poll_step(old(self).port, old(self).address, old(self).erase_pending, true);
                &&& r == t.result
                &&& bus_step_frame(old(self).port, final(self).port, t.events, t.bus_pos_after)
            }),
    {
        self.poll_application(true)
    }

    /// The shared verify/erase poll.  A status read comes first.  While
    /// the done bit is clear: on the first poll the command is issued
    /// (zero-length for verify, the four-byte magic sequence for erase)
    /// and marked in flight, on later polls nothing more is written; the
    /// outcome is "try again later".  Once the done bit is set the marker
    /// is cleared and the error bit decides between success and the chip
    /// error decoded from the error bitmap register.  A bus fault is fatal
    /// and clears the marker.
    fn poll_application(&mut self, erase: bool) -> (r: Result<(), NbError<ErrorAwake>>)
        ensures
            final(self).address == old(self).address,
            ({
                let pending = if erase {
                    old(self).erase_pending
                } else {
                    old(self).verify_pending
                };
                let t = poll_step(old(self).port, old(self).address, pending, erase);
                &&& r == t.result
                &&& bus_step_frame(old(self).port, final(self).port, t.events, t.bus_pos_after)
                &&& if erase {
                    final(self).erase_pending == (r matches Err(NbError::WouldBlock))
                        && final(self).verify_pending == old(self).verify_pending
                } else {
                    final(self).verify_pending == (r matches Err(NbError::WouldBlock))
                        && final(self).erase_pending == old(self).erase_pending
                }
            }),
    {
        let ghost p0 = self.port;
        let ghost a0 = self.address;
        let done_flag = if erase {
            FLAG_APP_ERASE
        } else {
            FLAG_APP_VERIFY
        };
        let pending = if erase {
            self.erase_pending
        } else {
            self.verify_pending
        };
        let ghost t = poll_step(p0, a0, pending, erase);
        let status_res = self.port.read_register(self.address, REG_STATUS, 1);
        match status_res {
            Err(_) => {
                self.set_pending(erase, false);
                proof {
                    assert(self.port.log@ =~= p0.log@ + t.events);
                }
                Err(NbError::Other(ErrorAwake::Bus))
            },
            Ok(d) => {
                let status = d[0];
                if status & done_flag == 0 {
                    if pending {
                        proof {
                            assert(self.port.log@ =~= p0.log@ + t.events);
                        }
                        Err(NbError::WouldBlock)
                    } else {
                        let issued = if erase {
                            self.port.write_quad(
                                self.address,
                                REG_APP_ERASE,
                                ERASE_MAGIC_0,
                                ERASE_MAGIC_1,
                                ERASE_MAGIC_2,
                                ERASE_MAGIC_3,
                            )
                        } else {
                            self.port.write_command(self.address, REG_APP_VERIFY)
                        };
                        proof {
                            assert(self.port.log@ =~= p0.log@ + t.events);
                        }
                        match issued {
                            Ok(_) => {
                                self.set_pending(erase, true);
                                Err(NbError::WouldBlock)
                            },
                            Err(_) => {
                                self.set_pending(erase, false);
                                Err(NbError::Other(ErrorAwake::Bus))
                            },
                        }
                    }
                } else {
                    self.set_pending(erase, false);
                    if status & FLAG_ERROR != 0 {
                        let err_res = self.port.read_register(self.address, REG_ERROR_ID, 1);
                        proof {
                            assert(self.port.log@ =~= p0.log@ + t.events);
                        }
                        match err_res {
                            Ok(e) => Err(
                                NbError::Other(ErrorAwake::Device(decode_device_errors(e[0]))),
                            ),
                            Err(_) => Err(NbError::Other(ErrorAwake::Bus)),
                        }
                    } else {
                        proof {
                            assert(self.port.log@ =~= p0.log@ + t.events);
                        }
                        Ok(())
                    }
                }
            },
        }
    }

    /// Sets the in-flight marker of the chosen operation.
    fn set_pending(&mut self, erase: bool, value: bool)
        ensures
            final(self).port == old(self).port,
            final(self).address == old(self).address,
            if erase {
                final(self).erase_pending == value && final(self).verify_pending == old(
                    self,
                ).verify_pending
            } else {
                final(self).verify_pending == value && final(self).erase_pending == old(
                    self,
                ).erase_pending
            },
    {
        if erase {
            self.erase_pending = value;
        } else {
            self.verify_pending = value;
        }
    }
}

/// A boot-mode handle that owns a wake line: every operation is bracketed
/// between driving the line low (with the settling delay) and releasing it
/// high, on every exit path.
pub struct Ccs811Boot {
    /// The inner awake-channel handle.
    pub dev: Ccs811AwakeBoot,
}

impl Ccs811Boot {
    /// A fresh wake-gated boot-mode handle with no operation in flight.
    pub fn new(port: Port, address: u8) -> (r: Ccs811Boot)
        ensures
            r.dev.port == port,
            r.dev.address == address,
            !r.dev.verify_pending,
            !r.dev.erase_pending,
    {
        Ccs811Boot { dev: Ccs811AwakeBoot::new(port, address) }
    }

    /// Gives the transport back to the caller.
    pub fn destroy(self) -> (r: Port)
        ensures
            r == self.dev.port,
    {
        self.dev.port
    }

    /// Wake-gated [`Ccs811AwakeBoot::has_valid_app`].
    pub fn has_valid_app(&mut self) -> (r: Result<bool, Error>)
        ensures
            final(self).dev.address == old(self).dev.address,
            final(self).dev.verify_pending == old(self).dev.verify_pending,
            final(self).dev.erase_pending == old(self).dev.erase_pending,
            ({
                let p = old(self).dev.port;
                if !p.pin_ok(0) {
                    &&& r == Err::<bool, Error>(Error::Pin)
                    &&& gated_frame(
                        p,
                        final(self).dev.port,
                        seq![Event::PinLow],
                        p.bus_pos as int,
                        p.pin_pos_after1(),
                    )
                } else {
                    let t = status_step(p, old(self).dev.address);
                    let inner = match t.result {
                        Ok(s) => Ok::<bool, ErrorAwake>(app_valid(s)),
                        Err(e) => Err::<bool, ErrorAwake>(e),
                    };
                    &&& r == merge_result(inner, p.pin_ok(1))
                    &&& gated_frame(
                        p,
                        final(self).dev.port,
                        ev_gated_extension(t.events),
                        t.bus_pos_after,
                        p.pin_pos_after2(),
                    )
                    &&& wake_bracketed(
                        final(self).dev.port.log@.skip(p.log@.len() as int),
                    )
                }
            }),
    {
        let ghost p0 = self.dev.port;
        let ghost addr0 = self.dev.address;
        if let Err(_) = self.dev.port.pin_set_low() {
            proof {
                assert(self.dev.port.log@ =~= p0.log@ + seq![Event::PinLow]);
            }
            return Err(Error::Pin);
        }
        self.dev.port.delay_us(WAKE_DELAY_US);
        let inner = self.dev.has_valid_app();
        let released = self.dev.port.pin_set_high();
        proof {
            let t = status_step(p0, addr0);
            lemma_status_step_no_pin(p0, addr0);
            assert(self.dev.port.log@ =~= p0.log@ + ev_gated_extension(t.events));
            lemma_gated_log(p0, self.dev.port, t.events);
        }
        match (inner, released) {
            (Ok(v), Ok(_)) => Ok(v),
            (Ok(_), Err(_)) => Err(Error::Pin),
            (Err(e), _) => Err(Error::from_awake(e)),
        }
    }

    /// Wake-gated [`Ccs811AwakeBoot::start_application`], consuming the
    /// boot handle.
    ///
    /// The whole transition happens inside one wake bracket.  When the
    /// bus exchange succeeds but releasing the wake line fails, the chip's
    /// power state is unconfirmed, so the new mode is not surfaced: the
    /// caller gets a pin error together with a handle still tagged for
    /// boot mode.  When the exchange itself fails, its error is reported
    /// and a release failure is discarded as the less diagnostic of the
    /// two.
    pub fn start_application(self) -> (r: Result<Ccs811App, ModeChangeError<Ccs811Boot, Error>>)
        ensures
            ({
                let p = self.dev.port;
                let addr = self.dev.address;
                if !p.pin_ok(0) {
                    match r {
                        Ok(_) => false,
                        Err(mce) => {
                            &&& mce.error == Error::Pin
                            &&& gated_frame(
                                p,
                                mce.dev.dev.port,
                                seq![Event::PinLow],
                                p.bus_pos as int,
                                p.pin_pos_after1(),
                            )
                            &&& mce.dev.dev.address == addr
                            &&& mce.dev.dev.verify_pending == self.dev.verify_pending
                            &&& mce.dev.dev.erase_pending == self.dev.erase_pending
                        },
                    }
                } else {
                    let t = start_step(p, addr);
                    match r {
                        Ok(app) => {
                            &&& t.result is Ok
                            &&& p.pin_ok(1)
                            &&& gated_frame(
                                p,
                                app.dev.port,
                                ev_gated_extension(t.events),
                                t.bus_pos_after,
                                p.pin_pos_after2(),
                            )
                            &&& app.dev.address == addr
                            &&& app.dev.meas_mode_reg == 0
                            &&& wake_bracketed(app.dev.port.log@.skip(p.log@.len() as int))
                        },
                        Err(mce) => {
                            &&& gated_frame(
                                p,
                                mce.dev.dev.port,
                                ev_gated_extension(t.events),
                                t.bus_pos_after,
                                p.pin_pos_after2(),
                            )
                            &&& mce.dev.dev.address == addr
                            &&& match t.result {
                                Ok(_) => {
                                    &&& !p.pin_ok(1)
                                    &&& mce.error == Error::Pin
                                    &&& !mce.dev.dev.verify_pending
                                    &&& !mce.dev.dev.erase_pending
                                },
                                Err(e) => {
                                    &&& mce.error == crate::types::spec_error_from_awake(e)
                                    &&& mce.dev.dev.verify_pending == self.dev.verify_pending
                                    &&& mce.dev.dev.erase_pending == self.dev.erase_pending
                                },
                            }
                            &&& wake_bracketed(mce.dev.dev.port.log@.skip(p.log@.len() as int))
                        },
                    }
                }
            }),
    {
        let mut dev = self.dev;
        let ghost p0 = dev.port;
        let ghost addr0 = dev.address;
        if let Err(_) = dev.port.pin_set_low() {
            proof {
                assert(dev.port.log@ =~= p0.log@ + seq![Event::PinLow]);
            }
            return Err(ModeChangeError { dev: Ccs811Boot { dev }, error: Error::Pin });
        }
        dev.port.delay_us(WAKE_DELAY_US);
        let inner = dev.start_application();
        match inner {
            Ok(mut app) => {
                let released = app.port.pin_set_high();
                proof {
                    let t = start_step(p0, addr0);
                    lemma_start_step_no_pin(p0, addr0);
                    assert(app.port.log@ =~= p0.log@ + ev_gated_extension(t.events));
                    lemma_gated_log(p0, app.port, t.events);
                }
                match released {
                    Ok(_) => Ok(Ccs811App { dev: app }),
                    Err(_) => Err(
                        ModeChangeError {
                            dev: Ccs811Boot {
                                dev: Ccs811AwakeBoot {
                                    port: app.port,
                                    address: app.address,
                                    verify_pending: false,
                                    erase_pending: false,
                                },
                            },
                            error: Error::Pin,
                        },
                    ),
                }
            },
            Err(mce) => {
                let mut failed_dev = mce.dev;
                // the release is attempted on every exit path; its own
                // failure is discarded in favour of the inner error
                let _ = failed_dev.port.pin_set_high();
                proof {
                    let t = start_step(p0, addr0);
                    lemma_start_step_no_pin(p0, addr0);
                    assert(failed_dev.port.log@ =~= p0.log@ + ev_gated_extension(t.events));
                    lemma_gated_log(p0, failed_dev.port, t.events);
                }
                Err(
                    ModeChangeError {
                        dev: Ccs811Boot { dev: failed_dev },
                        error: Error::from_awake(mce.error),
                    },
                )
            },
        }
    }

    /// Wake-gated [`Ccs811AwakeBoot::verify_application`]: one poll of the
    /// firmware verify operation, one wake cycle for this call alone.
    pub fn verify_application(&mut self) -> (r: Result<(), NbError<Error>>)
        ensures
            final(self).dev.address == old(self).dev.address,
            final(self).dev.erase_pending == old(self).dev.erase_pending,
            ({
                let p = old(self).dev.port;
                if !p.pin_ok(0) {
                    &&& r == Err::<(), NbError<Error>>(NbError::Other(Error::Pin))
                    &&& gated_frame(
                        p,
                        final(self).dev.port,
                        seq![Event::PinLow],
                        p.bus_pos as int,
                        p.pin_pos_after1(),
                    )
                    &&& final(self).dev.verify_pending == old(self).dev.verify_pending
                } else {
                    let t = poll_step(p, old(self).dev.address, old(self).dev.verify_pending, false);
                    &&& r == merge_nb(t.result, p.pin_ok(1))
                    &&& gated_frame(
                        p,
                        final(self).dev.port,
                        ev_gated_extension(t.events),
                        t.bus_pos_after,
                        p.pin_pos_after2(),
                    )
                    &&& final(self).dev.verify_pending == (t.result matches Err(NbError::WouldBlock))
                    &&& wake_bracketed(final(self).dev.port.log@.skip(p.log@.len() as int))
                }
            }),
    {
        let ghost p0 = self.dev.port;
        let ghost addr0 = self.dev.address;
        let ghost pending0 = self.dev.verify_pending;
        if let Err(_) = self.dev.port.pin_set_low() {
            proof {
                assert(self.dev.port.log@ =~= p0.log@ + seq![Event::PinLow]);
            }
            return Err(NbError::Other(Error::Pin));
        }
        self.dev.port.delay_us(WAKE_DELAY_US);
        let inner = self.dev.verify_application();
        let released = self.dev.port.pin_set_high();
        proof {
            let t = poll_step(p0, addr0, pending0, false);
            lemma_poll_step_no_pin(p0, addr0, pending0, false);
            assert(self.dev.port.log@ =~= p0.log@ + ev_gated_extension(t.events));
            lemma_gated_log(p0, self.dev.port, t.events);
        }
        match (inner, released) {
            (Ok(_), Ok(_)) => Ok(()),
            (Ok(_), Err(_)) => Err(NbError::Other(Error::Pin)),
            (Err(NbError::WouldBlock), Ok(_)) => Err(NbError::WouldBlock),
            (Err(NbError::WouldBlock), Err(_)) => Err(NbError::Other(Error::Pin)),
            (Err(NbError::Other(e)), _) => Err(NbError::Other(Error::from_awake(e))),
        }
    }

    /// Wake-gated [`Ccs811AwakeBoot::erase_application`]: one poll of the
    /// firmware erase operation, one wake cycle for this call alone.
    pub fn erase_application(&mut self) -> (r: Result<(), NbError<Error>>)
        ensures
            final(self).dev.address == old(self).dev.address,
            final(self).dev.verify_pending == old(self).dev.verify_pending,
            ({
                let p = old(self).dev.port;
                if !p.pin_ok(0) {
                    &&& r == Err::<(), NbError<Error>>(NbError::Other(Error::Pin))
                    &&& gated_frame(
                        p,
                        final(self).dev.port,
                        seq![Event::PinLow],
                        p.bus_pos as int,
                        p.pin_pos_after1(),
                    )
                    &&& final(self).dev.erase_pending == old(self).dev.erase_pending
                } else {
                    let t = poll_step(p, old(self).dev.address, old(self).dev.erase_pending, true);
                    &&& r == merge_nb(t.result, p.pin_ok(1))
                    &&& gated_frame(
                        p,
                        final(self).dev.port,
                        ev_gated_extension(t.events),
                        t.bus_pos_after,
                        p.pin_pos_after2(),
                    )
                    &&& final(self).dev.erase_pending == (t.result matches Err(NbError::WouldBlock))
                    &&& wake_bracketed(final(self).dev.port.log@.skip(p.log@.len() as int))
                }
            }),
    {
        let ghost p0 = self.dev.port;
        let ghost addr0 = self.dev.address;
        let ghost pending0 = self.dev.erase_pending;
        if let Err(_) = self.dev.port.pin_set_low() {
            proof {
                assert(self.dev.port.log@ =~= p0.log@ + seq![Event::PinLow]);
            }
            return Err(NbError::Other(Error::Pin));
        }
        self.dev.port.delay_us(WAKE_DELAY_US);
        let inner = self.dev.erase_application();
        let released = self.dev.port.pin_set_high();
        proof {
            let t = poll_step(p0, addr0, pending0, true);
            lemma_poll_step_no_pin(p0, addr0, pending0, true);
            assert(self.dev.port.log@ =~= p0.log@ + ev_gated_extension(t.events));
            lemma_gated_log(p0, self.dev.port, t.events);
        }
        match (inner, released) {
            (Ok(_), Ok(_)) => Ok(()),
            (Ok(_), Err(_)) => Err(NbError::Other(Error::Pin)),
            (Err(NbError::WouldBlock), Ok(_)) => Err(NbError::WouldBlock),
            (Err(NbError::WouldBlock), Err(_)) => Err(NbError::Other(Error::Pin)),
            (Err(NbError::Other(e)), _) => Err(NbError::Other(Error::from_awake(e))),
        }
    }
}

} // verus!
