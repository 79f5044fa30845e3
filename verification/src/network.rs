//! What the network side of the device decides: whether a ping can be sent,
//! what a failed ping puts on the display, and when the buzzer sounds.
//!
//! Connecting, sending and waiting are done elsewhere; the functions here are
//! told how that went.

use either::Either;
use std::time::Duration;
use vstd::prelude::*;
use crate::constants::SegmentDisplayText;
use crate::errors::ApiClientError;
use crate::errors::ApiError;
use crate::errors::ApiResponseError;
use crate::errors::WifiError;
use crate::api_client::PingResponse;
use crate::system_time::whole_millis;
use crate::system_time::AtomicSystemTime;
use crate::tm1637::mappings::GpioPinValue;

verus! {

/// `either::Either`, the enum of the two variants `Left(L)` and `Right(R)`.
/// It is declared with its variants, so that values of it are built and read
/// like those of any enum. Not proved: that these are its variants.
#[verifier::external_type_specification]
#[verifier::reject_recursive_types(L)]
#[verifier::reject_recursive_types(R)]
pub struct ExEither<L, R>(Either<L, R>);

/// An output of the device and the level to drive it to.
#[derive(Clone, Copy, Debug, PartialEq, Eq, Structural)]
pub enum PeripheralKind {
    PowerOnLed(GpioPinValue),
    WifiConnectedLed(GpioPinValue),
    ProximaApiRequestLed(GpioPinValue),
    AlertBuzzer(GpioPinValue),
}

/// How far a connection has got with its address.
#[derive(Clone, Copy, Debug, PartialEq, Eq, Structural)]
pub enum ClientIpStatus {
    Disabled,
    Waiting,
    Done,
}

/// How far the client has got with its connection.
#[derive(Clone, Copy, Debug, PartialEq, Eq, Structural)]
pub enum ClientConnectionStatus {
    Disconnected,
    Connecting,
    Connected(ClientIpStatus),
}

/// State of the wifi client.
#[derive(Clone, Copy, Debug, PartialEq, Eq, Structural)]
pub enum ClientStatus {
    Stopped,
    Starting,
    Started(ClientConnectionStatus),
}

/// Whether a client in this state is connected and has its address.
pub open spec fn has_address(status: ClientStatus) -> bool {
    status == ClientStatus::Started(ClientConnectionStatus::Connected(ClientIpStatus::Done))
}

/// An access point, as a scan reports it.
#[derive(Clone, Debug, PartialEq, Eq)]
pub struct AccessPoint {
    pub ssid: String,
    pub channel: u8,
}

/// Code of the error for a scan that did not see the configured access
/// point.
pub const AP_NOT_FOUND_CODE: &'static str = "E0006";

/// The position of the first access point named `ssid` among the first `n`
/// of `found`, if there is one.
pub open spec fn first_named(found: Seq<AccessPoint>, ssid: Seq<char>, n: nat) -> Option<nat>
    decreases n,
{
    if n == 0 {
        None
    } else {
        match first_named(found, ssid, (n - 1) as nat) {
            Some(i) => Some(i),
            None => if found[n - 1].ssid@ == ssid {
                Some((n - 1) as nat)
            } else {
                None
            },
        }
    }
}

/// The first access point named `ssid`, if any, lies before every other one
/// of that name; without one, no access point has the name.
pub proof fn lemma_first_named_is_first(found: Seq<AccessPoint>, ssid: Seq<char>, n: nat)
    requires
        n <= found.len(),
    ensures
        match first_named(found, ssid, n) {
            Some(i) => i < n && found[i as int].ssid@ == ssid && forall|j: int|
                0 <= j < i ==> (#[trigger] found[j]).ssid@ != ssid,
            None => forall|j: int| 0 <= j < n ==> (#[trigger] found[j]).ssid@ != ssid,
        },
    decreases n,
{
    if n > 0 {
        lemma_first_named_is_first(found, ssid, (n - 1) as nat);
    }
}

/// What is found among the first access points is found among more of them.
proof fn lemma_first_named_persists(found: Seq<AccessPoint>, ssid: Seq<char>, n: nat, m: nat)
    requires
        n <= m,
        first_named(found, ssid, n) is Some,
    ensures
        first_named(found, ssid, m) == first_named(found, ssid, n),
    decreases m - n,
{
    if n < m {
        lemma_first_named_persists(found, ssid, n, (m - 1) as nat);
    }
}

/// The channel of the first access point named `ssid` among those that a
/// scan found; an error naming `ssid` where the scan did not see it.
pub fn channel_of(found: &Vec<AccessPoint>, ssid: &str) -> (r: Result<u8, WifiError>)
    ensures
        match r {
            Ok(channel) => first_named(found@, ssid@, found@.len()) matches Some(i) && channel
                == found@[i as int].channel,
            Err(WifiError::ApNotFound(code, name)) => first_named(found@, ssid@, found@.len())
                is None && code@ == AP_NOT_FOUND_CODE@ && name@ == ssid@,
            Err(_) => false,
        },
{
    let wanted = ssid.to_owned();
    let mut i: usize = 0;
    while i < found.len()
        invariant
            i <= found@.len(),
            wanted@ == ssid@,
            first_named(found@, ssid@, i as nat) is None,
        decreases found@.len() - i,
    {
        if found[i].ssid == wanted {
            proof {
                assert(first_named(found@, ssid@, (i + 1) as nat) == Some(i as nat));
                lemma_first_named_persists(found@, ssid@, (i + 1) as nat, found@.len());
            }
            return Ok(found[i].channel);
        }
        i = i + 1;
    }
    Err(WifiError::ApNotFound(AP_NOT_FOUND_CODE.to_owned(), wanted))
}

/// Code of the error for a ping without a network connection.
pub const NOT_CONNECTED_CODE: &'static str = "E0017";

/// Code of the error for a ping without an address.
pub const UNRESOLVED_IP_CODE: &'static str = "E0018";

/// The text that tells of `e` on the display, for the errors that have one.
pub open spec fn display_text_of(e: ApiError) -> Option<&'static str> {
    match e {
        ApiError::Response(ApiResponseError::InternalServerError(_, _, _)) => Some(
            SegmentDisplayText::ERR_503,
        ),
        ApiError::Response(ApiResponseError::SiteNotFound(_, _)) => Some(
            SegmentDisplayText::ERR_404,
        ),
        ApiError::Response(ApiResponseError::NotFound(_, _, _)) => Some(
            SegmentDisplayText::ERR_404,
        ),
        ApiError::Response(ApiResponseError::BadRequest(_, _, _)) => Some(
            SegmentDisplayText::ERR_400,
        ),
        ApiError::Client(ApiClientError::Response(_, _)) => Some(SegmentDisplayText::ERR_API),
        ApiError::Client(ApiClientError::JsonParsing(_, _)) => Some(SegmentDisplayText::ERR_JSON),
        ApiError::Other => None,
    }
}

/// The text that tells of `e` on the display, for the errors that have one.
pub fn segment_display_error(e: &ApiError) -> (text: Option<&'static str>)
    ensures
        text == display_text_of(*e),
{
    match e {
        ApiError::Response(ApiResponseError::InternalServerError(_, _, _)) => Some(
            SegmentDisplayText::ERR_503,
        ),
        ApiError::Response(ApiResponseError::SiteNotFound(_, _)) => Some(
            SegmentDisplayText::ERR_404,
        ),
        ApiError::Response(ApiResponseError::NotFound(_, _, _)) => Some(
            SegmentDisplayText::ERR_404,
        ),
        ApiError::Response(ApiResponseError::BadRequest(_, _, _)) => Some(
            SegmentDisplayText::ERR_400,
        ),
        ApiError::Client(ApiClientError::Response(_, _)) => Some(SegmentDisplayText::ERR_API),
        ApiError::Client(ApiClientError::JsonParsing(_, _)) => Some(SegmentDisplayText::ERR_JSON),
        ApiError::Other => None,
    }
}

/// What the buzzer does at one tick.
#[derive(Clone, Copy, Debug, PartialEq, Eq, Structural)]
pub struct BuzzerAction {
    /// The level of the buzzer's pin.
    pub level: GpioPinValue,
    /// Whether the display asks for the device to be switched off.
    pub warn_on_display: bool,
}

/// What the buzzer does when the failsafe deadline lies at `failsafe_ms`, the
/// API has (or has not) asked for a continuous beep, a short beep lasts until
/// `short_beep_until_ms`, and it is `now_ms`.
///
/// Past the failsafe deadline the buzzer sounds and the display warns, and so
/// it does while the API asks for it; a short beep sounds without a warning;
/// otherwise the buzzer is silent.
pub open spec fn buzzer_action_at(
    failsafe_ms: u64,
    continuous: bool,
    short_beep_until_ms: u64,
    now_ms: u64,
) -> BuzzerAction {
    if failsafe_ms <= now_ms || continuous {
        BuzzerAction { level: GpioPinValue::High, warn_on_display: true }
    } else if short_beep_until_ms > now_ms {
        BuzzerAction { level: GpioPinValue::High, warn_on_display: false }
    } else {
        BuzzerAction { level: GpioPinValue::Low, warn_on_display: false }
    }
}

/// State of the network side of the device.
#[derive(Clone, Copy, Debug, PartialEq, Eq, Structural)]
pub struct Network {
    pub is_network_connected: bool,
    pub is_wifi_ip_resolved: bool,
    pub is_first_ping_after_device_turned_on: bool,
}

/// Whether `r` is the answer to a device that wants to ping with the given
/// connection state.
pub open spec fn is_ping_readiness(r: Result<(), WifiError>, connected: bool, resolved: bool) -> bool {
    match r {
        Ok(_) => connected && resolved,
        Err(WifiError::NotConnected(code)) => !connected && code@ == NOT_CONNECTED_CODE@,
        Err(WifiError::UnresolvedIp(code)) => connected && !resolved && code@
            == UNRESOLVED_IP_CODE@,
        Err(_) => false,
    }
}

impl Network {
    /// A device that has just been switched on: not connected, and its next
    /// ping is its first.
    pub fn new() -> (network: Self)
        ensures
            !network.is_network_connected,
            !network.is_wifi_ip_resolved,
            network.is_first_ping_after_device_turned_on,
    {
        Network {
            is_network_connected: false,
            is_wifi_ip_resolved: false,
            is_first_ping_after_device_turned_on: true,
        }
    }

    /// The data of a ping that worked, or else the text that tells of its
    /// failure on the display, if there is one.
    pub fn process_network_response<'a, T>(self, response: &'a Result<T, ApiError>) -> (r: Either<
        &'a T,
        Option<&'static str>,
    >)
        ensures
            match *response {
                Ok(data) => r == Either::<&T, Option<&'static str>>::Left(&data),
                Err(e) => r == Either::<&T, Option<&'static str>>::Right(display_text_of(e)),
            },
    {
        match response {
            Ok(d) => Either::Left(d),
            Err(e) => Either::Right(segment_display_error(e)),
        }
    }

    /// Takes note of an attempt to connect: a device that was not connected
    /// is connected if the attempt worked.
    pub fn connection_attempted(&mut self, connected: bool)
        ensures
            final(self).is_network_connected == (old(self).is_network_connected || connected),
            final(self).is_wifi_ip_resolved == old(self).is_wifi_ip_resolved,
            final(self).is_first_ping_after_device_turned_on == old(
                self,
            ).is_first_ping_after_device_turned_on,
    {
        if !self.is_network_connected && connected {
            self.is_network_connected = true;
        }
    }

    /// Takes note of whether the connection has an address now.
    pub fn ip_status_checked(&mut self, resolved: bool)
        ensures
            final(self).is_wifi_ip_resolved == resolved,
            final(self).is_network_connected == old(self).is_network_connected,
            final(self).is_first_ping_after_device_turned_on == old(
                self,
            ).is_first_ping_after_device_turned_on,
    {
        self.is_wifi_ip_resolved = resolved;
    }

    /// Whether the wifi client is connected and has its address.
    pub fn check_wifi_ip_resolved(self, status: &ClientStatus) -> (resolved: bool)
        ensures
            resolved == has_address(*status),
    {
        if let ClientStatus::Started(ClientConnectionStatus::Connected(ClientIpStatus::Done)) =
            *status {
            return true;
        }
        false
    }

    /// Takes note of a ping that the API answered: the next ping is a first
    /// ping for as long as the API has not registered one.
    pub fn first_ping_answered(&mut self, registered: bool)
        ensures
            final(self).is_first_ping_after_device_turned_on == !registered,
            final(self).is_network_connected == old(self).is_network_connected,
            final(self).is_wifi_ip_resolved == old(self).is_wifi_ip_resolved,
    {
        self.is_first_ping_after_device_turned_on = !registered;
    }

    /// The level of the request LED at step `i` of the blink that announces a
    /// request: on at the even steps.
    pub fn request_led_level(i: u8) -> (level: GpioPinValue)
        ensures
            level == if i % 2 == 0 {
                GpioPinValue::High
            } else {
                GpioPinValue::Low
            },
    {
        if i % 2 == 0 {
            GpioPinValue::High
        } else {
            GpioPinValue::Low
        }
    }

    /// Whether a ping can be sent: only over a connection that has an
    /// address.
    pub fn ping_readiness(&self) -> (r: Result<(), WifiError>)
        ensures
            is_ping_readiness(r, self.is_network_connected, self.is_wifi_ip_resolved),
    {
        if !self.is_network_connected {
            return Err(WifiError::NotConnected(NOT_CONNECTED_CODE.to_owned()));
        }
        if !self.is_wifi_ip_resolved {
            return Err(WifiError::UnresolvedIp(UNRESOLVED_IP_CODE.to_owned()));
        }
        Ok(())
    }

    /// Sets the buzzer as a ping response asks: the continuous beep on or
    /// off, and a short beep, if one is asked for, from now for its length.
    /// The short beep is left as it was where its end would not fit the
    /// clock.
    pub fn set_buzzer(
        self,
        ping_data: &PingResponse,
        play_short_period_buzzer_beep_until_time: &mut AtomicSystemTime,
        is_continuous_period_buzzer_beep_active: &mut bool,
        now: Duration,
    )
        ensures
            *final(is_continuous_period_buzzer_beep_active)
                == ping_data.is_continuous_period_buzzer_beep_active,
            final(play_short_period_buzzer_beep_until_time).millis() == if
                ping_data.short_period_buzzer_beep_duration_ms > 0 && whole_millis(now)
                + ping_data.short_period_buzzer_beep_duration_ms <= u64::MAX {
                (whole_millis(now) + ping_data.short_period_buzzer_beep_duration_ms) as u64
            } else {
                old(play_short_period_buzzer_beep_until_time).millis()
            },
    {
        *is_continuous_period_buzzer_beep_active =
        ping_data.is_continuous_period_buzzer_beep_active;
        if ping_data.short_period_buzzer_beep_duration_ms > 0 {
            let length: u64 = ping_data.short_period_buzzer_beep_duration_ms as u64;
            let _ = play_short_period_buzzer_beep_until_time.checked_add_millis_to_now(now, length);
        }
    }

    /// What the buzzer does now.
    pub fn buzzer_action(
        last_buzzed_time: &AtomicSystemTime,
        is_continuous_period_buzzer_beep_active: bool,
        play_short_period_buzzer_beep_until_time: &AtomicSystemTime,
        now: Duration,
    ) -> (action: BuzzerAction)
        ensures
            action == buzzer_action_at(
                last_buzzed_time.millis(),
                is_continuous_period_buzzer_beep_active,
                play_short_period_buzzer_beep_until_time.millis(),
                whole_millis(now),
            ),
    {
        if last_buzzed_time.has_passed(now).is_some() {
            return BuzzerAction { level: GpioPinValue::High, warn_on_display: true };
        }
        if is_continuous_period_buzzer_beep_active {
            return BuzzerAction { level: GpioPinValue::High, warn_on_display: true };
        }
        if play_short_period_buzzer_beep_until_time.to_pass(now).is_some() {
            return BuzzerAction { level: GpioPinValue::High, warn_on_display: false };
        }
        BuzzerAction { level: GpioPinValue::Low, warn_on_display: false }
    }
}

/// State of the network side of a device that does not tell first pings from
/// later ones.
#[derive(Clone, Copy, Debug, PartialEq, Eq, Structural)]
pub struct NetworkFeature {
    pub is_network_connected: bool,
    pub is_wifi_ip_resolved: bool,
}

impl NetworkFeature {
    /// A device that is not connected.
    pub fn new() -> (network: Self)
        ensures
            !network.is_network_connected,
            !network.is_wifi_ip_resolved,
    {
        NetworkFeature { is_network_connected: false, is_wifi_ip_resolved: false }
    }

    /// Whether the wifi client is connected and has its address.
    pub fn check_wifi_ip_resolved(self, status: &ClientStatus) -> (resolved: bool)
        ensures
            resolved == has_address(*status),
    {
        if let ClientStatus::Started(ClientConnectionStatus::Connected(ClientIpStatus::Done)) =
            *status {
            return true;
        }
        false
    }

    /// The text that tells of a failed request on the display, if there is
    /// one; nothing for a request that worked.
    pub fn network_response_to_segment_display_error<T>(
        self,
        response: &Result<T, ApiError>,
    ) -> (text: Option<&'static str>)
        ensures
            text == match *response {
                Ok(_) => None,
                Err(e) => display_text_of(e),
            },
    {
        match response {
            Ok(_) => None,
            Err(e) => segment_display_error(e),
        }
    }
}

/// The calls of the Sirius Proxima API that the device makes.
#[derive(Clone, Copy, Debug, PartialEq, Eq, Structural)]
pub struct Apis;

/// Endpoint of the ping.
pub const PING_ENDPOINT: &'static str = "/api/v1/sirius_alpha/ping";

impl Apis {
    pub fn new() -> (apis: Self)
        ensures
            apis == Apis,
    {
        Apis
    }
}

} // verus!
