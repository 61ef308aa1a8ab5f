use yonder::accept::{approval_notice, format_bytes};
use yonder::transfer::{FileMeta, Transfer};

/// The same computation in floating point.
fn float_format(bytes: u64) -> String {
    let units = ["B", "KB", "MB", "GB", "TB"];
    let mut value = bytes as f64;
    let mut i = 0;
    while value >= 1024.0 && i < units.len() - 1 {
        value /= 1024.0;
        i += 1;
    }
    if i == 0 {
        format!("{} {}", bytes, units[i])
    } else {
        format!("{:.1} {}", value, units[i])
    }
}

#[test]
fn format_bytes_examples() {
    assert_eq!(format_bytes(0), "0 B");
    assert_eq!(format_bytes(1023), "1023 B");
    assert_eq!(format_bytes(1024), "1.0 KB");
    assert_eq!(format_bytes(1536), "1.5 KB");
    assert_eq!(format_bytes(1024 * 1024), "1.0 MB");
    assert_eq!(format_bytes(5 * 1024 * 1024 * 1024), "5.0 GB");
    assert_eq!(format_bytes(1048575), "1024.0 KB");
    assert_eq!(format_bytes(u64::MAX), "16777216.0 TB");
}

#[test]
fn format_bytes_matches_floating_point_everywhere_sampled() {
    for b in 0..20_000u64 {
        assert_eq!(format_bytes(b), float_format(b), "at {b}");
    }
    // Exact ties between two tenths.
    for k in 0..4000u64 {
        let b = 1024 * k + 1024 / 4;
        assert_eq!(format_bytes(b), float_format(b), "at {b}");
        let b = 1024 * k + 3 * 1024 / 4;
        assert_eq!(format_bytes(b), float_format(b), "at {b}");
        let b = (1u64 << 20) * k + (1u64 << 20) / 4;
        assert_eq!(format_bytes(b), float_format(b), "at {b}");
    }
    // Around each unit boundary and the edge of exact doubles.
    for e in [10u32, 20, 30, 40, 50, 53, 54, 60, 63] {
        let base = 1u64 << e;
        for d in 0..2000u64 {
            for b in [base.wrapping_sub(d), base.wrapping_add(d)] {
                assert_eq!(format_bytes(b), float_format(b), "at {b}");
            }
        }
    }
    for b in [u64::MAX, u64::MAX - 1, u64::MAX - 1024, u64::MAX / 3, (1u64 << 53) + 1, (1u64 << 54) + 3] {
        assert_eq!(format_bytes(b), float_format(b), "at {b}");
    }
    // A pseudo-random spread.
    let mut x: u64 = 0x9e37_79b9_7f4a_7c15;
    for _ in 0..200_000 {
        x = x.wrapping_mul(6364136223846793005).wrapping_add(1442695040888963407);
        let b = x >> (x % 64);
        assert_eq!(format_bytes(b), float_format(b), "at {b}");
    }
}

#[test]
fn approval_notice_names_sender_and_size() {
    let one = Transfer::new_receive(
        "s".into(),
        "p".into(),
        "Alice".into(),
        vec![FileMeta { name: "a.pdf".into(), size: 2048, mime: None }],
    );
    let (title, body) = approval_notice(&one);
    assert_eq!(title, "Alice wants to send files");
    assert_eq!(body, "a.pdf (2.0 KB)");
    let many = Transfer::new_receive(
        "s".into(),
        "p".into(),
        "Bob".into(),
        vec![
            FileMeta { name: "a".into(), size: 10, mime: None },
            FileMeta { name: "b".into(), size: 20, mime: None },
        ],
    );
    let (_, body) = approval_notice(&many);
    assert_eq!(body, "2 files (30 B)");
}
