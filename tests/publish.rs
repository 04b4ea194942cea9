use monitoring_app::publish::{decimal_string, status_messages, sub_topic};
use monitoring_app::sample::{AirQualityStatus, Timestamp};

#[test]
fn status_publishes_four_retained_messages() {
    let status = AirQualityStatus {
        pm_1_0: 10,
        pm_2_5: 20,
        pm_10: 30,
        timestamp: Timestamp { unix_secs: 0, subsec_nanos: 0, utc_offset_secs: 0 },
    };
    let json = String::from(
        "{\n  \"pm_1_0\": 10,\n  \"pm_2_5\": 20,\n  \"pm_10\": 30,\n  \"timestamp\": \"1970-01-01T00:00:00+00:00\"\n}",
    );
    let msgs = status_messages("air", &status, json.clone());
    assert_eq!(msgs.len(), 4);
    let pairs: Vec<(&str, &str)> =
        msgs.iter().map(|m| (m.topic.as_str(), m.payload.as_str())).collect();
    assert_eq!(
        pairs,
        vec![
            ("air/status", json.as_str()),
            ("air/pm10", "30"),
            ("air/pm1_0", "10"),
            ("air/pm2_5", "20"),
        ]
    );
    assert!(msgs.iter().all(|m| m.retained));
}

#[test]
fn decimal_rendering() {
    assert_eq!(decimal_string(0), "0");
    assert_eq!(decimal_string(7), "7");
    assert_eq!(decimal_string(10), "10");
    assert_eq!(decimal_string(1203), "1203");
    assert_eq!(decimal_string(u32::MAX), "4294967295");
}

#[test]
fn topics_join_with_a_slash() {
    assert_eq!(sub_topic("home/air", "pm10"), "home/air/pm10");
    assert_eq!(sub_topic("", "status"), "/status");
}
