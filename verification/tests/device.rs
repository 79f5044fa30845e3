use either::Either;
use sirius_alpha::api_client::ApiClient;
use sirius_alpha::api_client::Exchange;
use sirius_alpha::api_client::PingResponse;
use sirius_alpha::api_client::SiriusProximaClient;
use sirius_alpha::clock::format_uptime;
use sirius_alpha::clock::DisplayLoop;
use sirius_alpha::constants::DefaultValues;
use sirius_alpha::constants::EnvConfig;
use sirius_alpha::constants::Environment;
use sirius_alpha::constants::SegmentDisplayText;
use sirius_alpha::errors::ApiClientError;
use sirius_alpha::errors::ApiError;
use sirius_alpha::errors::ApiResponseError;
use sirius_alpha::errors::CommonError;
use sirius_alpha::errors::DeviceError;
use sirius_alpha::errors::SetupError;
use sirius_alpha::errors::WifiError;
use sirius_alpha::models::Device;
use sirius_alpha::models::DeviceDetails;
use sirius_alpha::models::DeviceType;
use sirius_alpha::models::EnvValues;
use sirius_alpha::models::Health;
use sirius_alpha::models::SAlphaDeviceDetails;
use sirius_alpha::models::SiriusProximaErrorResponse;
use sirius_alpha::models::SiriusProximaPing;
use sirius_alpha::models::SiriusProximaSuccessResponse;
use sirius_alpha::models::UnknownDeviceType;
use sirius_alpha::network::channel_of;
use sirius_alpha::network::segment_display_error;
use sirius_alpha::network::AccessPoint;
use sirius_alpha::network::Apis;
use sirius_alpha::network::BuzzerAction;
use sirius_alpha::network::ClientConnectionStatus;
use sirius_alpha::network::ClientIpStatus;
use sirius_alpha::network::ClientStatus;
use sirius_alpha::network::Network;
use sirius_alpha::network::NetworkFeature;
use sirius_alpha::network::PeripheralKind;
use sirius_alpha::system_time::AtomicSystemTime;
use sirius_alpha::system_time::Diff;
use sirius_alpha::tm1637::errors::TmError;
use sirius_alpha::tm1637::frames::Tm1637BannerAutoScrollConfig;
use sirius_alpha::tm1637::mappings::GpioPinValue;
use sirius_alpha::tm1637::wire::LineOp;
use sirius_alpha::tm1637::Tm1637;
use std::time::Duration;

fn env(device_type: &str, failsafe: &str) -> EnvValues {
    EnvValues {
        app_version: "0.3.1".to_string(),
        wifi_ssid: "barn".to_string(),
        wifi_pass: "SECRET-REDACTED".to_string(),
        api_token_key: "x-api-token".to_string(),
        api_secret_token: "SECRET-REDACTED".to_string(),
        api_base_url: "https://proxima.example".to_string(),
        device_type: device_type.to_string(),
        device_name: "pump".to_string(),
        device_id: "sa-0007".to_string(),
        device_location: "north field".to_string(),
        failsafe_trigger_continuous_period_buzzer_beep_after_ms: failsafe.to_string(),
    }
}

fn failsafe(text: &str) -> Option<u64> {
    env("bore_well_motor", text).failsafe_trigger_continuous_period_buzzer_beep_after_ms()
}

#[test]
fn now_is_the_clock_in_whole_milliseconds() {
    assert_eq!(AtomicSystemTime::now_millis(Duration::from_micros(1_999)), 1);
    assert_eq!(AtomicSystemTime::now_millis(Duration::from_nanos(999_999)), 0);
    assert_eq!(AtomicSystemTime::now_millis(Duration::from_secs(3)), 3000);
    assert_eq!(AtomicSystemTime::now(Duration::from_millis(1234)).as_millis(), 1234);
}

#[test]
fn now_keeps_the_low_64_bits_of_the_milliseconds() {
    // 2^64 + 5000 milliseconds.
    let long = Duration::new(18_446_744_073_709_556, 616_000_000);
    assert_eq!(long.as_millis(), (1u128 << 64) + 5000);
    assert_eq!(AtomicSystemTime::now_millis(long), 5000);
    assert_eq!(AtomicSystemTime::from_duration(long).as_millis(), 5000);
}

#[test]
fn points_from_milliseconds_and_durations() {
    assert_eq!(AtomicSystemTime::from_millis(42).as_millis(), 42);
    assert_eq!(AtomicSystemTime::from_millis(u64::MAX).as_millis(), u64::MAX);
    assert_eq!(AtomicSystemTime::from_duration(Duration::from_micros(2_500)).as_millis(), 2);
    assert_eq!(AtomicSystemTime::from_millis(1500).as_duration(), Duration::from_millis(1500));
    assert_eq!(AtomicSystemTime::from_millis(0).as_duration(), Duration::ZERO);
}

#[test]
fn diff_between_two_points() {
    assert_eq!(Diff::between(500, 200), Diff::ToPass(Duration::from_millis(300)));
    assert_eq!(Diff::between(200, 500), Diff::HasPassed(Duration::from_millis(300)));
    assert_eq!(Diff::between(7, 7), Diff::HasPassed(Duration::ZERO));
    assert_eq!(Diff::between(u64::MAX, 0), Diff::ToPass(Duration::from_millis(u64::MAX)));
}

#[test]
fn since_tells_past_from_future() {
    let point = AtomicSystemTime::from_millis(10_000);
    assert_eq!(
        point.since(Duration::from_millis(12_500)),
        Diff::HasPassed(Duration::from_millis(2_500))
    );
    assert_eq!(
        point.since(Duration::from_millis(4_000)),
        Diff::ToPass(Duration::from_millis(6_000))
    );
    assert_eq!(point.since(Duration::from_millis(10_000)), Diff::HasPassed(Duration::ZERO));
    // Fractions of a millisecond of the clock do not count.
    assert_eq!(point.since(Duration::from_micros(9_999_999)), Diff::ToPass(Duration::from_millis(1)));
}

#[test]
fn has_passed_and_to_pass_are_two_views_of_since() {
    let point = AtomicSystemTime::from_millis(10_000);
    let later = Duration::from_millis(12_500);
    let earlier = Duration::from_millis(4_000);
    assert_eq!(point.has_passed(later), Some(Duration::from_millis(2_500)));
    assert_eq!(point.to_pass(later), None);
    assert_eq!(point.has_passed(earlier), None);
    assert_eq!(point.to_pass(earlier), Some(Duration::from_millis(6_000)));
    assert_eq!(point.has_passed(Duration::from_millis(10_000)), Some(Duration::ZERO));
    assert_eq!(point.to_pass(Duration::from_millis(10_000)), None);
}

#[test]
fn set_now_moves_the_point() {
    let mut point = AtomicSystemTime::from_millis(1);
    let returned = point.set_now(Duration::from_millis(777));
    assert_eq!(point.as_millis(), 777);
    assert_eq!(returned.as_millis(), 777);
}

#[test]
fn add_duration_to_now_adds_before_it_rounds() {
    let mut point = AtomicSystemTime::from_millis(0);
    let returned =
        point.add_duration_to_now(Duration::from_micros(1_600), Duration::from_micros(700));
    // 1.6 ms + 0.7 ms is 2.3 ms, not 1 ms + 0 ms.
    assert_eq!(point.as_millis(), 2);
    assert_eq!(returned.as_millis(), 2);
    point.add_duration_to_now(Duration::from_secs(10), Duration::from_millis(250));
    assert_eq!(point.as_millis(), 10_250);
    point.add_duration_to_now(Duration::MAX, Duration::MAX);
    let expected = (2 * Duration::MAX.as_nanos() / 1_000_000) as u64;
    assert_eq!(point.as_millis(), expected);
}

#[test]
fn add_millis_to_now_counts_from_now() {
    let mut point = AtomicSystemTime::from_millis(99);
    let returned = point.add_millis_to_now(Duration::from_millis(5_000), 250);
    assert_eq!(point.as_millis(), 5_250);
    assert_eq!(returned.as_millis(), 5_250);
}

#[test]
fn add_duration_counts_from_the_point() {
    let mut point = AtomicSystemTime::from_millis(1_000);
    let returned = point.add_duration(Duration::from_micros(2_999));
    assert_eq!(point.as_millis(), 1_002);
    assert_eq!(returned.as_millis(), 1_002);
    let mut late = AtomicSystemTime::from_millis(u64::MAX);
    late.add_duration(Duration::from_millis(2));
    assert_eq!(late.as_millis(), 1);
}

#[test]
fn add_millis_counts_from_the_point() {
    let mut point = AtomicSystemTime::from_millis(1_000);
    let returned = point.add_millis(234);
    assert_eq!(point.as_millis(), 1_234);
    assert_eq!(returned.as_millis(), 1_234);
    point.add_millis(0);
    assert_eq!(point.as_millis(), 1_234);
}

#[test]
fn default_values() {
    assert_eq!(DefaultValues::API_TIMEOUT_MS, 10_000);
    assert_eq!(DefaultValues::WIFI_RECONNECTION_DELAY_MS, 4_000);
    assert_eq!(DefaultValues::NET_CONNECTION_MANAGER_THREAD_DELAY_MS, 4_000);
    assert_eq!(DefaultValues::TM1637_THREAD, 1_000);
    assert_eq!(DefaultValues::APIS_THREAD_DELAY_MS, 3_000);
    assert_eq!(DefaultValues::BUZZER_THREAD_DELAY_MS, 500);
}

#[test]
fn display_texts() {
    assert_eq!(SegmentDisplayText::ERR_404, "Err 404");
    assert_eq!(SegmentDisplayText::ERR_400, "Err 400");
    assert_eq!(SegmentDisplayText::ERR_503, "Err 503");
    assert_eq!(SegmentDisplayText::ERR_API, "Err API");
    assert_eq!(SegmentDisplayText::ERR_JSON, "Err JSON");
    assert_eq!(SegmentDisplayText::ERR_NO_WIFI, "Err no yify");
}

#[test]
fn environment_follows_the_kind_of_build() {
    assert_eq!(
        EnvConfig::new(true),
        EnvConfig { show_network_requests: true, show_network_response: true }
    );
    assert_eq!(
        EnvConfig::new(false),
        EnvConfig { show_network_requests: false, show_network_response: false }
    );
    let debug = Environment::new(true);
    assert!(debug.is_debug && !debug.is_release);
    assert_eq!(debug.config, EnvConfig::new(true));
    let release = Environment::new(false);
    assert!(!release.is_debug && release.is_release);
    assert_eq!(release.config, EnvConfig::new(false));
}

#[test]
fn failsafe_setting_is_a_decimal_number() {
    assert_eq!(failsafe("60000"), Some(60_000));
    assert_eq!(failsafe("0"), Some(0));
    assert_eq!(failsafe("007"), Some(7));
    assert_eq!(failsafe("+15"), Some(15));
    assert_eq!(failsafe("18446744073709551615"), Some(u64::MAX));
    for text in ["60000", "0", "007", "+15", "18446744073709551615"] {
        assert_eq!(failsafe(text), text.parse::<u64>().ok());
    }
}

#[test]
fn failsafe_setting_that_is_no_number_is_refused() {
    for text in [
        "",
        "+",
        "-1",
        "++1",
        "1+",
        " 1",
        "1 ",
        "1_000",
        "12a",
        "0x10",
        "1.5",
        "\u{0661}",
        "18446744073709551616",
        "99999999999999999999999",
    ] {
        assert_eq!(failsafe(text), None, "setting {text:?}");
        assert!(text.parse::<u64>().is_err());
    }
}

#[test]
fn url_is_base_and_endpoint() {
    let client = ApiClient {
        base_url: "https://proxima.example".to_string(),
        connect_timeout_ms: 1,
        enable_compression: false,
    };
    assert_eq!(client.build_url("/api/v1/sirius_alpha/ping"), "https://proxima.example/api/v1/sirius_alpha/ping");
    assert_eq!(client.build_url(""), "https://proxima.example");
}

#[test]
fn client_has_the_default_timeout() {
    let client = SiriusProximaClient::new("https://proxima.example".to_string());
    assert_eq!(
        client.base_api_client,
        ApiClient {
            base_url: "https://proxima.example".to_string(),
            connect_timeout_ms: 10_000,
            enable_compression: true,
        }
    );
}

#[test]
fn success_hands_out_its_data() {
    let client = SiriusProximaClient::new(String::new());
    let body = SiriusProximaSuccessResponse {
        status_code: 200,
        message: Some("ok".to_string()),
        data: Health { is_health_ok: true },
        success: true,
    };
    assert_eq!(
        client.handle_response(Exchange::Success(Ok(body))),
        Ok(Health { is_health_ok: true })
    );
}

#[test]
fn error_response_is_told_by_its_status() {
    let client = SiriusProximaClient::new(String::new());
    let body = |error: Option<&str>, message: Option<&str>| SiriusProximaErrorResponse {
        status_code: 0,
        message: message.map(str::to_string),
        success: false,
        error: error.map(str::to_string),
    };
    let handled: Result<Health, ApiError> =
        client.handle_response(Exchange::Refused(400, Ok(body(Some("bad"), Some("no id")))));
    assert_eq!(
        handled,
        Err(ApiError::Response(ApiResponseError::BadRequest(
            "E0024b".to_string(),
            "bad".to_string(),
            "no id".to_string()
        )))
    );
    let handled: Result<Health, ApiError> =
        client.handle_response(Exchange::Refused(404, Ok(body(None, Some("gone")))));
    assert_eq!(
        handled,
        Err(ApiError::Response(ApiResponseError::NotFound(
            "E0024c".to_string(),
            String::new(),
            "gone".to_string()
        )))
    );
    for status in [500u16, 503, 401, 302, 0] {
        let handled: Result<Health, ApiError> =
            client.handle_response(Exchange::Refused(status, Ok(body(Some("down"), None))));
        assert_eq!(
            handled,
            Err(ApiError::Response(ApiResponseError::InternalServerError(
                "E0024d".to_string(),
                "down".to_string(),
                String::new()
            )))
        );
    }
}

#[test]
fn failed_exchanges_keep_their_cause() {
    let client = SiriusProximaClient::new(String::new());
    let handled: Result<Health, ApiError> =
        client.handle_response(Exchange::Unreachable("connection refused".to_string()));
    assert_eq!(
        handled,
        Err(ApiError::Response(ApiResponseError::SiteNotFound(
            "E0025".to_string(),
            "connection refused".to_string()
        )))
    );
    let handled: Result<Health, ApiError> =
        client.handle_response(Exchange::Failed("too many redirects".to_string()));
    assert_eq!(
        handled,
        Err(ApiError::Client(ApiClientError::Response(
            "E0020b".to_string(),
            "too many redirects".to_string()
        )))
    );
    let handled: Result<Health, ApiError> =
        client.handle_response(Exchange::Unreadable("invalid utf-8".to_string()));
    assert_eq!(
        handled,
        Err(ApiError::Client(ApiClientError::Response(
            "E0021b".to_string(),
            "invalid utf-8".to_string()
        )))
    );
    let handled: Result<Health, ApiError> =
        client.handle_response(Exchange::Success(Err("missing field `data`".to_string())));
    assert_eq!(
        handled,
        Err(ApiError::Client(ApiClientError::JsonParsing(
            "E0022b".to_string(),
            "missing field `data`".to_string()
        )))
    );
    let handled: Result<Health, ApiError> =
        client.handle_response(Exchange::Refused(400, Err("expected value".to_string())));
    assert_eq!(
        handled,
        Err(ApiError::Client(ApiClientError::JsonParsing(
            "E0023b".to_string(),
            "expected value".to_string()
        )))
    );
}

#[test]
fn response_error_from_status() {
    assert!(matches!(
        ApiResponseError::from_status(400, String::new(), String::new()),
        ApiResponseError::BadRequest(_, _, _)
    ));
    assert!(matches!(
        ApiResponseError::from_status(404, String::new(), String::new()),
        ApiResponseError::NotFound(_, _, _)
    ));
    assert!(matches!(
        ApiResponseError::from_status(418, String::new(), String::new()),
        ApiResponseError::InternalServerError(_, _, _)
    ));
}

#[test]
fn device_types_by_name() {
    assert_eq!(DeviceType::from_str("roof_water_heater"), Ok(DeviceType::RoofWaterHeater));
    assert_eq!(DeviceType::from_str("bore_well_motor"), Ok(DeviceType::BoreWellMotor));
    assert_eq!(DeviceType::from_str("ground_well_motor"), Ok(DeviceType::GroundWellMotor));
    for name in ["", "Roof_Water_Heater", "roof_water_heater ", "RoofWaterHeater", "motor"] {
        assert_eq!(DeviceType::from_str(name), Err(UnknownDeviceType));
    }
    for device_type in
        [DeviceType::RoofWaterHeater, DeviceType::BoreWellMotor, DeviceType::GroundWellMotor]
    {
        assert_eq!(DeviceType::from_str(device_type.name()), Ok(device_type));
    }
}

#[test]
fn device_details_come_from_the_settings_and_the_chip() {
    let settings = env("bore_well_motor", "1");
    let details = DeviceDetails::new(&settings, Some("ESP32".to_string()), 3, true);
    assert_eq!(
        details,
        DeviceDetails {
            device_name: "pump".to_string(),
            model: "ESP32".to_string(),
            device_id: "sa-0007".to_string(),
            device_location: "north field".to_string(),
            revision: 3,
            app_version: "0.3.1".to_string(),
            is_first_ping_after_device_turned_on: true,
        }
    );
    assert_eq!(DeviceDetails::new(&settings, None, 0, false).model, "Unknown");
}

#[test]
fn ping_names_the_device_type_twice() {
    let settings = env("ground_well_motor", "1");
    let ping = SiriusProximaPing::new(&settings, None, 1, false).unwrap();
    assert_eq!(ping.device_type, DeviceType::GroundWellMotor);
    assert_eq!(ping.device.device_type, DeviceType::GroundWellMotor);
    assert_eq!(ping.device, Device::new(&settings, None, 1, false).unwrap());
    assert_eq!(ping.device.details, DeviceDetails::new(&settings, None, 1, false));
}

#[test]
fn ping_of_an_unknown_device_type_is_refused() {
    let settings = env("toaster", "1");
    assert_eq!(SiriusProximaPing::new(&settings, None, 1, true), Err(UnknownDeviceType));
    assert_eq!(Device::new(&settings, None, 1, true), Err(UnknownDeviceType));
}

#[test]
fn plain_models_hold_their_fields() {
    let details = SAlphaDeviceDetails {
        device_name: "pump".to_string(),
        model: "ESP32".to_string(),
        device_id: "sa-0007".to_string(),
        device_location: "north field".to_string(),
        device_sdk: "v4.4".to_string(),
        app_version: "0.3.1".to_string(),
    };
    assert_eq!(details.clone(), details);
    assert_ne!(
        CommonError::MutexGuard("E0014".to_string(), "poisoned".to_string()),
        CommonError::MutexGuard("E0012".to_string(), "poisoned".to_string())
    );
    assert_eq!(
        DeviceError::PeripheralPin("E0030b", "'peripherals' is empty"),
        DeviceError::PeripheralPin("E0030b", "'peripherals' is empty")
    );
    assert_eq!(SetupError::Peripherals("E0001", "taken"), SetupError::Peripherals("E0001", "taken"));
    assert_ne!(
        WifiError::Scanning("E0002".to_string(), "busy".to_string()),
        WifiError::Configuration("E0004".to_string(), "busy".to_string())
    );
    assert_eq!(Apis::new(), Apis);
    assert_eq!(
        PeripheralKind::AlertBuzzer(GpioPinValue::High),
        PeripheralKind::AlertBuzzer(GpioPinValue::High)
    );
    assert_ne!(
        PeripheralKind::PowerOnLed(GpioPinValue::High),
        PeripheralKind::WifiConnectedLed(GpioPinValue::High)
    );
    assert_ne!(
        PeripheralKind::ProximaApiRequestLed(GpioPinValue::High),
        PeripheralKind::ProximaApiRequestLed(GpioPinValue::Low)
    );
}

#[test]
fn new_network_is_not_connected() {
    let network = Network::new();
    assert!(!network.is_network_connected);
    assert!(!network.is_wifi_ip_resolved);
    assert!(network.is_first_ping_after_device_turned_on);
    let feature = NetworkFeature::new();
    assert!(!feature.is_network_connected);
    assert!(!feature.is_wifi_ip_resolved);
}

#[test]
fn ping_needs_a_connection_with_an_address() {
    let mut network = Network::new();
    assert_eq!(network.ping_readiness(), Err(WifiError::NotConnected("E0017".to_string())));
    network.connection_attempted(false);
    assert_eq!(network.ping_readiness(), Err(WifiError::NotConnected("E0017".to_string())));
    network.connection_attempted(true);
    assert!(network.is_network_connected);
    assert_eq!(network.ping_readiness(), Err(WifiError::UnresolvedIp("E0018".to_string())));
    network.ip_status_checked(true);
    assert_eq!(network.ping_readiness(), Ok(()));
    network.connection_attempted(false);
    assert!(network.is_network_connected);
    network.ip_status_checked(false);
    assert_eq!(network.ping_readiness(), Err(WifiError::UnresolvedIp("E0018".to_string())));
}

#[test]
fn address_is_resolved_only_when_the_client_is_done() {
    let network = Network::new();
    let done = ClientStatus::Started(ClientConnectionStatus::Connected(ClientIpStatus::Done));
    assert!(network.check_wifi_ip_resolved(&done));
    assert!(NetworkFeature::new().check_wifi_ip_resolved(&done));
    for status in [
        ClientStatus::Stopped,
        ClientStatus::Starting,
        ClientStatus::Started(ClientConnectionStatus::Disconnected),
        ClientStatus::Started(ClientConnectionStatus::Connecting),
        ClientStatus::Started(ClientConnectionStatus::Connected(ClientIpStatus::Disabled)),
        ClientStatus::Started(ClientConnectionStatus::Connected(ClientIpStatus::Waiting)),
    ] {
        assert!(!network.check_wifi_ip_resolved(&status));
        assert!(!NetworkFeature::new().check_wifi_ip_resolved(&status));
    }
}

#[test]
fn first_ping_stays_first_until_it_is_registered() {
    let mut network = Network::new();
    network.first_ping_answered(false);
    assert!(network.is_first_ping_after_device_turned_on);
    network.first_ping_answered(true);
    assert!(!network.is_first_ping_after_device_turned_on);
}

#[test]
fn request_led_blinks_on_even_steps() {
    let levels: Vec<GpioPinValue> = (0..5).map(Network::request_led_level).collect();
    assert_eq!(
        levels,
        vec![
            GpioPinValue::High,
            GpioPinValue::Low,
            GpioPinValue::High,
            GpioPinValue::Low,
            GpioPinValue::High
        ]
    );
}

#[test]
fn channel_of_the_first_access_point_of_that_name() {
    let ap = |ssid: &str, channel: u8| AccessPoint { ssid: ssid.to_string(), channel };
    let found = vec![ap("shed", 1), ap("barn", 6), ap("house", 11), ap("barn", 3)];
    assert_eq!(channel_of(&found, "barn"), Ok(6));
    assert_eq!(channel_of(&found, "shed"), Ok(1));
    assert_eq!(
        channel_of(&found, "Barn"),
        Err(WifiError::ApNotFound("E0006".to_string(), "Barn".to_string()))
    );
    assert_eq!(
        channel_of(&Vec::new(), "barn"),
        Err(WifiError::ApNotFound("E0006".to_string(), "barn".to_string()))
    );
}

#[test]
fn api_errors_have_their_display_texts() {
    let s = String::new;
    let cases = [
        (ApiError::Response(ApiResponseError::InternalServerError(s(), s(), s())), Some("Err 503")),
        (ApiError::Response(ApiResponseError::SiteNotFound(s(), s())), Some("Err 404")),
        (ApiError::Response(ApiResponseError::NotFound(s(), s(), s())), Some("Err 404")),
        (ApiError::Response(ApiResponseError::BadRequest(s(), s(), s())), Some("Err 400")),
        (ApiError::Client(ApiClientError::Response(s(), s())), Some("Err API")),
        (ApiError::Client(ApiClientError::JsonParsing(s(), s())), Some("Err JSON")),
        (ApiError::Other, None),
    ];
    for (error, text) in cases {
        assert_eq!(segment_display_error(&error), text);
        let response: Result<Health, ApiError> = Err(error);
        assert_eq!(Network::new().process_network_response(&response), Either::Right(text));
        assert_eq!(
            NetworkFeature::new().network_response_to_segment_display_error(&response),
            text
        );
    }
}

#[test]
fn response_that_worked_is_handed_on() {
    let response: Result<Health, ApiError> = Ok(Health { is_health_ok: true });
    assert_eq!(
        Network::new().process_network_response(&response),
        Either::Left(&Health { is_health_ok: true })
    );
    assert_eq!(NetworkFeature::new().network_response_to_segment_display_error(&response), None);
}

#[test]
fn display_text_of_an_error_can_be_shown() {
    let tm = Tm1637::new();
    let config = Tm1637BannerAutoScrollConfig {
        scroll_min_char_count: 5,
        delay_ms: 750,
        min_char_count_to_be_displayed: 4,
    };
    let frames: Result<Vec<String>, TmError<()>> =
        tm.frames(SegmentDisplayText::ERR_NO_WIFI, Some(&config));
    assert_eq!(
        frames.unwrap(),
        vec!["Err ", "rr n", "r no", " no ", "no y", "o yi", " yif", "yify"]
    );
}

#[test]
fn ping_sets_the_buzzer() {
    let network = Network::new();
    let mut until = AtomicSystemTime::from_millis(0);
    let mut continuous = false;
    let now = Duration::from_millis(8_000);
    let ping = PingResponse {
        short_period_buzzer_beep_duration_ms: 1_500,
        is_continuous_period_buzzer_beep_active: true,
    };
    network.set_buzzer(&ping, &mut until, &mut continuous, now);
    assert!(continuous);
    assert_eq!(until.as_millis(), 9_500);

    let quiet = PingResponse {
        short_period_buzzer_beep_duration_ms: 0,
        is_continuous_period_buzzer_beep_active: false,
    };
    network.set_buzzer(&quiet, &mut until, &mut continuous, Duration::from_millis(20_000));
    assert!(!continuous);
    assert_eq!(until.as_millis(), 9_500);
}

#[test]
fn short_beep_that_would_end_behind_the_clock_is_left_out() {
    let network = Network::new();
    let mut until = AtomicSystemTime::from_millis(77);
    let mut continuous = false;
    let ping = PingResponse {
        short_period_buzzer_beep_duration_ms: 2,
        is_continuous_period_buzzer_beep_active: false,
    };
    network.set_buzzer(&ping, &mut until, &mut continuous, Duration::from_millis(u64::MAX - 1));
    assert_eq!(until.as_millis(), 77);
    network.set_buzzer(&ping, &mut until, &mut continuous, Duration::from_millis(u64::MAX - 2));
    assert_eq!(until.as_millis(), u64::MAX);
}

#[test]
fn buzzer_sounds_for_failsafe_continuous_and_short_beeps() {
    let at = AtomicSystemTime::from_millis;
    let now = Duration::from_millis(1_000);
    let loud_and_warned = BuzzerAction { level: GpioPinValue::High, warn_on_display: true };
    let loud = BuzzerAction { level: GpioPinValue::High, warn_on_display: false };
    let silent = BuzzerAction { level: GpioPinValue::Low, warn_on_display: false };
    // The failsafe deadline has passed.
    assert_eq!(Network::buzzer_action(&at(999), false, &at(0), now), loud_and_warned);
    assert_eq!(Network::buzzer_action(&at(1_000), false, &at(0), now), loud_and_warned);
    assert_eq!(Network::buzzer_action(&at(1_000), true, &at(5_000), now), loud_and_warned);
    // The API asks for a continuous beep.
    assert_eq!(Network::buzzer_action(&at(1_001), true, &at(0), now), loud_and_warned);
    // A short beep is on.
    assert_eq!(Network::buzzer_action(&at(1_001), false, &at(1_001), now), loud);
    // Nothing asks for the buzzer.
    assert_eq!(Network::buzzer_action(&at(1_001), false, &at(1_000), now), silent);
    assert_eq!(Network::buzzer_action(&at(u64::MAX), false, &at(0), now), silent);
}

#[test]
fn uptime_in_the_first_hour_is_minutes_and_seconds() {
    assert_eq!(format_uptime(0), "0000");
    assert_eq!(format_uptime(9), "0009");
    assert_eq!(format_uptime(59), "0059");
    assert_eq!(format_uptime(60), "0100");
    assert_eq!(format_uptime(754), "1234");
    assert_eq!(format_uptime(3_599), "5959");
}

#[test]
fn uptime_after_the_first_hour_names_its_parts() {
    assert_eq!(format_uptime(3_600), "1h 00n 00c");
    assert_eq!(format_uptime(3_600 + 5 * 60 + 9), "1h 05n 09c");
    assert_eq!(format_uptime(10 * 3_600 + 59 * 60 + 59), "10h 59n 59c");
    assert_eq!(format_uptime(123 * 3_600 + 60), "123h 01n 00c");
    assert_eq!(format_uptime(u64::MAX), "5124095576030431h 00n 15c");
    for secs in [3_600u64, 86_399, 86_400, 1_000_000, 4_000_000_000] {
        let expected = format!("{}h {:02}n {:02}c", secs / 3_600, secs / 60 % 60, secs % 60);
        assert_eq!(format_uptime(secs), expected);
    }
}

#[test]
fn clock_blinks_its_colon_in_the_first_hour() {
    let mut display_loop = DisplayLoop::new();
    let first = display_loop.tick(None, 61);
    assert_eq!(first.text, "0101");
    assert!(first.show_colon);
    assert_eq!(first.auto_scroll, None);
    assert_eq!(first.delay_ms, 100);
    assert_eq!(first.next_delay_ms, 1_000);
    assert!(!first.message_shown);
    let second = display_loop.tick(None, 62);
    assert_eq!(second.text, "0102");
    assert!(!second.show_colon);
    let third = display_loop.tick(None, 63);
    assert!(third.show_colon);
    assert_eq!(display_loop.ticks, 3);
}

#[test]
fn clock_scrolls_after_the_first_hour() {
    let mut display_loop = DisplayLoop::new();
    let request = display_loop.tick(None, 3_725);
    assert_eq!(request.text, "1h 02n 05c");
    assert!(!request.show_colon);
    assert_eq!(
        request.auto_scroll,
        Some(Tm1637BannerAutoScrollConfig {
            scroll_min_char_count: 5,
            delay_ms: 750,
            min_char_count_to_be_displayed: 4,
        })
    );
    assert_eq!(request.delay_ms, 0);
    assert_eq!(request.next_delay_ms, 2_000);
    assert_eq!(display_loop.message_every, 2);
    assert!(!display_loop.show_colon);
}

#[test]
fn message_waits_for_its_tick() {
    let mut display_loop = DisplayLoop::new();
    // Tick 0 is a message tick.
    let shown = display_loop.tick(Some("Err 404"), 10);
    assert!(shown.message_shown);
    assert_eq!(shown.text, "Err 404");
    assert!(!shown.show_colon);
    assert_eq!(shown.delay_ms, 0);
    assert_eq!(shown.next_delay_ms, 2_000);
    assert!(shown.auto_scroll.is_some());
    // Ticks 1 to 4 show the time although a message waits.
    for tick in 1..5u64 {
        let request = display_loop.tick(Some("Err API"), 10 + tick);
        assert!(!request.message_shown, "tick {tick}");
        assert_eq!(request.text, format_uptime(10 + tick));
    }
    // Tick 5 shows the message.
    let request = display_loop.tick(Some("Err API"), 15);
    assert!(request.message_shown);
    assert_eq!(request.text, "Err API");
}

#[test]
fn message_comes_sooner_after_the_first_hour() {
    let mut display_loop = DisplayLoop::new();
    display_loop.tick(None, 4_000);
    assert_eq!(display_loop.ticks, 1);
    assert!(!display_loop.tick(Some("Err 503"), 4_002).message_shown);
    assert!(display_loop.tick(Some("Err 503"), 4_004).message_shown);
    assert!(!display_loop.tick(Some("Err 503"), 4_006).message_shown);
    assert!(display_loop.tick(Some("Err 503"), 4_008).message_shown);
}

#[test]
fn tick_count_starts_over_at_its_limit() {
    let mut display_loop = DisplayLoop { message_every: 5, ticks: u32::MAX, show_colon: false };
    let request = display_loop.tick(Some("Err 404"), 1);
    assert!(request.message_shown);
    assert_eq!(display_loop.ticks, 0);
}

#[test]
fn requests_of_the_loop_can_be_rendered() {
    let tm = Tm1637::new();
    let mut display_loop = DisplayLoop::new();
    for uptime in [5u64, 3_599, 3_600, 360_000] {
        let request = display_loop.tick(None, uptime);
        let script: Result<Vec<LineOp>, TmError<()>> = tm.print_string(
            &request.text,
            request.show_colon,
            request.auto_scroll.as_ref(),
            request.delay_ms,
        );
        assert!(script.is_ok());
    }
}
