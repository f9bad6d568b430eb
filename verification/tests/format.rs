use blive::api::{check_status, room_info_url, room_page_url, stream_url_request, user_info_url, ApiQuery, LiveStatus};
use blive::text::{parse_u32, parse_u64};
use blive::utils::{pretty_bytes, pretty_duration};

/// The float computation the byte display is defined by.
fn float_pretty_bytes(bytes: u64) -> String {
    let units = ["B", "KB", "MB", "GB", "TB"];
    let mut i = 0;
    let mut value = bytes as f64;
    while value >= 1024.0 && i < units.len() - 1 {
        value /= 1024.0;
        i += 1;
    }
    format!("{:.2} {}", value, units[i])
}

#[test]
fn pretty_bytes_small_values() {
    assert_eq!(pretty_bytes(0), "0.00 B");
    assert_eq!(pretty_bytes(1), "1.00 B");
    assert_eq!(pretty_bytes(1023), "1023.00 B");
    assert_eq!(pretty_bytes(1024), "1.00 KB");
    assert_eq!(pretty_bytes(1536), "1.50 KB");
    assert_eq!(pretty_bytes(1048576), "1.00 MB");
}

#[test]
fn pretty_bytes_rounds_ties_to_even() {
    // 1152 / 1024 = 1.125 exactly, written as 1.12.
    assert_eq!(pretty_bytes(1152), "1.12 KB");
    assert_eq!(pretty_bytes(1152), float_pretty_bytes(1152));
    // 1.375 KB is written as 1.38.
    assert_eq!(pretty_bytes(1408), "1.38 KB");
}

#[test]
fn pretty_bytes_matches_float_display() {
    let samples: [u64; 14] = [
        5,
        999,
        1025,
        10_000,
        123_456,
        9_999_999,
        1_073_741_824,
        5_000_000_000,
        1_099_511_627_776,
        3_000_000_000_000_000,
        9_007_199_254_740_993,
        u64::MAX / 3,
        u64::MAX - 1,
        u64::MAX,
    ];
    for b in samples {
        assert_eq!(pretty_bytes(b), float_pretty_bytes(b), "bytes {}", b);
    }
    let mut x: u64 = 1;
    for _ in 0..200 {
        x = x.wrapping_mul(6364136223846793005).wrapping_add(1442695040888963407);
        let b = x >> (x % 60);
        assert_eq!(pretty_bytes(b), float_pretty_bytes(b), "bytes {}", b);
    }
}

#[test]
fn pretty_bytes_largest_unit_is_terabytes() {
    assert!(pretty_bytes(u64::MAX).ends_with(" TB"));
    assert_eq!(pretty_bytes(1024 * 1024 * 1024 * 1024 * 1024), "1024.00 TB");
}

#[test]
fn pretty_duration_examples() {
    assert_eq!(pretty_duration(0), "00:00:00");
    assert_eq!(pretty_duration(59), "00:00:59");
    assert_eq!(pretty_duration(61), "00:01:01");
    assert_eq!(pretty_duration(3661), "01:01:01");
    assert_eq!(pretty_duration(86399), "23:59:59");
    assert_eq!(pretty_duration(360000), "100:00:00");
}

#[test]
fn pretty_duration_fields_recombine() {
    for d in [0u64, 1, 59, 60, 3599, 3600, 3601, 98765, 1_000_000] {
        let s = pretty_duration(d);
        let parts: Vec<u64> = s.split(':').map(|p| p.parse().unwrap()).collect();
        assert_eq!(parts[0] * 3600 + parts[1] * 60 + parts[2], d);
        assert!(parts[1] < 60 && parts[2] < 60);
    }
}

#[test]
fn parse_numbers_like_from_str() {
    for s in ["0", "42", "+7", "4294967295", "4294967296", "", "+", "-1", "12a", " 1", "007"] {
        assert_eq!(parse_u32(s), s.parse::<u32>().ok(), "text {:?}", s);
    }
    for s in ["18446744073709551615", "18446744073709551616", "23767864", "+0", "x"] {
        assert_eq!(parse_u64(s), s.parse::<u64>().ok(), "text {:?}", s);
    }
}

#[test]
fn request_urls() {
    assert_eq!(
        room_info_url(23767864),
        "https://api.live.bilibili.com/room/v1/Room/get_info?room_id=23767864"
    );
    assert_eq!(
        stream_url_request(23767864, 10000),
        "https://api.live.bilibili.com/xlive/web-room/v2/index/getRoomPlayInfo?room_id=23767864&protocol=0,1&format=0,1,2&codec=0,1&qn=10000"
    );
    assert_eq!(
        user_info_url(1804892069),
        "https://api.live.bilibili.com/live_user/v1/UserInfo/get_anchor_in_room?roomid=1804892069"
    );
    assert_eq!(room_page_url(732), "https://live.bilibili.com/732");
}

#[test]
fn status_check() {
    assert!(check_status(ApiQuery::RoomInfo, 200).is_ok());
    assert!(check_status(ApiQuery::RoomInfo, 299).is_ok());
    assert_eq!(check_status(ApiQuery::RoomInfo, 404), Err("Failed to get live room info".to_string()));
    assert_eq!(
        check_status(ApiQuery::StreamUrl, 500),
        Err("Failed to get live room stream url".to_string())
    );
    assert_eq!(check_status(ApiQuery::UserInfo, 199), Err("Failed to get live room user info".to_string()));
}

#[test]
fn live_status_numbers_and_labels() {
    assert_eq!(LiveStatus::from_number(0), LiveStatus::Offline);
    assert_eq!(LiveStatus::from_number(1), LiveStatus::Live);
    assert_eq!(LiveStatus::from_number(2), LiveStatus::Carousel);
    assert_eq!(LiveStatus::from_number(9), LiveStatus::Offline);
    assert_eq!(LiveStatus::Live.label(), "直播中");
    assert_eq!(LiveStatus::Carousel.label(), "轮播中");
    assert_eq!(LiveStatus::Offline.label(), "未开播");
}
