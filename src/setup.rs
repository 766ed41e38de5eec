use vstd::prelude::*;

use crate::color::{black, black_spec, blue, blue_spec, Hsv};
use crate::led::{Led, LedView};

verus! {

/// Storage key under which the network credentials are kept.
pub const WIFI_NVS_NAME: &'static str = "wifi_creds";

/// Period of the pulse shown while waiting for credentials, in milliseconds.
pub const SETUP_PULSE_MS: u64 = 2000;

/// Pause between two looks at the capture slot, in milliseconds.
pub const POLL_INTERVAL_MS: u64 = 20;

/// A network name and its passphrase.
#[derive(Clone, Debug)]
pub struct WifiCredentials {
    pub ssid: String,
    pub password: String,
}

/// Where start-up stands.
#[derive(Clone, Copy, Debug, PartialEq, Eq, Structural)]
pub enum SetupPhase {
    /// Looking for credentials saved by an earlier start.
    CheckStorage,
    /// Waiting for the access point to come up.
    OpeningAccessPoint,
    /// The access point is up; waiting for a client to submit credentials.
    AwaitingCredentials,
    /// Credentials are known and have been handed on; start-up never leaves this phase.
    Handoff,
}

/// What happened outside since the last step.
#[derive(Debug)]
pub enum SetupEvent {
    /// The storage was read: the credentials found under `WIFI_NVS_NAME`, if any.
    Stored(Option<WifiCredentials>),
    /// The access point and the capture endpoint are up.
    AccessPointOpen,
    /// The capture slot was looked at: what a client has submitted, if anything.
    Polled(Option<WifiCredentials>),
}

/// What start-up asks to be done next.
#[derive(Debug)]
pub enum SetupAction {
    /// Open the local access point and the capture endpoint.
    OpenAccessPoint,
    /// Show `color`, wait `POLL_INTERVAL_MS`, then look at the capture slot again.
    Wait { color: Hsv },
    /// Close the access point, show `color`, save `credentials` under `WIFI_NVS_NAME`
    /// (a failure to save is not fatal) and go on with them.
    Persist { credentials: WifiCredentials, color: Hsv },
    /// Go on with `credentials`, which came from storage.
    HandOff { credentials: WifiCredentials },
    /// The event does not belong to the current phase; nothing changed.
    Ignore,
}

/// The start-up sequence that finds network credentials before lamp mode.
pub struct Provisioning {
    pub phase: SetupPhase,
}

impl Provisioning {
    /// Start-up begins by looking into storage.
    pub fn new() -> (r: Provisioning)
        ensures
            r.phase == SetupPhase::CheckStorage,
    {
        Provisioning { phase: SetupPhase::CheckStorage }
    }

    /// Takes one event and says what to do next; drives the fixture's colour while waiting.
    pub fn step(&mut self, led: &mut Led, event: SetupEvent, now: u64) -> (action: SetupAction)
        requires
            old(led)@.wf(),
        ensures
            final(led)@.wf(),
            match (old(self).phase, event) {
                (SetupPhase::CheckStorage, SetupEvent::Stored(Some(c))) => {
                    &&& final(self).phase == SetupPhase::Handoff
                    &&& action matches SetupAction::HandOff { credentials } && credentials == c
                    &&& final(led)@ == old(led)@
                },
                (SetupPhase::CheckStorage, SetupEvent::Stored(None)) => {
                    &&& final(self).phase == SetupPhase::OpeningAccessPoint
                    &&& action is OpenAccessPoint
                    &&& final(led)@ == old(led)@
                },
                (SetupPhase::OpeningAccessPoint, SetupEvent::AccessPointOpen) => {
                    let shown = LedView { color: blue_spec(), ..old(led)@ };
                    &&& final(self).phase == SetupPhase::AwaitingCredentials
                    &&& final(led)@ == shown.pulsed(SETUP_PULSE_MS, now)
                    &&& action matches SetupAction::Wait { color } && color == final(led)@.color
                },
                (SetupPhase::AwaitingCredentials, SetupEvent::Polled(None)) => {
                    &&& final(self).phase == SetupPhase::AwaitingCredentials
                    &&& final(led)@ == old(led)@.ticked(now)
                    &&& action matches SetupAction::Wait { color } && color == final(led)@.color
                },
                (SetupPhase::AwaitingCredentials, SetupEvent::Polled(Some(c))) => {
                    &&& final(self).phase == SetupPhase::Handoff
                    &&& final(led)@ == (LedView { color: black_spec(), ..old(led)@.cleared() })
                    &&& action matches SetupAction::Persist { credentials, color }
                        && credentials == c && color == black_spec()
                },
                _ => {
                    &&& final(self).phase == old(self).phase
                    &&& final(led)@ == old(led)@
                    &&& action is Ignore
                },
            },
    {
        match (self.phase, event) {
            (SetupPhase::CheckStorage, SetupEvent::Stored(Some(c))) => {
                self.phase = SetupPhase::Handoff;
                SetupAction::HandOff { credentials: c }
            },
            (SetupPhase::CheckStorage, SetupEvent::Stored(None)) => {
                self.phase = SetupPhase::OpeningAccessPoint;
                SetupAction::OpenAccessPoint
            },
            (SetupPhase::OpeningAccessPoint, SetupEvent::AccessPointOpen) => {
                led.set_hsv(blue());
                led.pulse(SETUP_PULSE_MS, now);
                self.phase = SetupPhase::AwaitingCredentials;
                SetupAction::Wait { color: led.color() }
            },
            (SetupPhase::AwaitingCredentials, SetupEvent::Polled(None)) => {
                let color = led.tick(now);
                SetupAction::Wait { color }
            },
            (SetupPhase::AwaitingCredentials, SetupEvent::Polled(Some(c))) => {
                led.stop_transition();
                let off = black();
                led.set_hsv(off);
                self.phase = SetupPhase::Handoff;
                SetupAction::Persist { credentials: c, color: off }
            },
            _ => SetupAction::Ignore,
        }
    }
}

} // verus!
