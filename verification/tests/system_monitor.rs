use adwbar::system_monitor::{
    cpu_percent, cpu_usage, format_usage, gpu_usage, read_cpu_usage, read_gpu_usage,
};
use adwbar::text::{chars_of, fields_of, line_of, parse_number, render_decimal, trim, whitespace};

fn text(chars: &[char]) -> String {
    chars.iter().collect()
}

#[test]
fn cpu_usage_is_busy_share_rounded_down() {
    assert_eq!(read_cpu_usage(Some("cpu  1 2 3 4 5 6 7\ncpu0 9 9 9 9\n")), "60%");
    assert_eq!(read_cpu_usage(Some("cpu 1 0 0 2")), "33%");
    assert_eq!(read_cpu_usage(Some("cpu 2 0 0 1")), "66%");
    assert_eq!(read_cpu_usage(Some("cpu 0 0 0 7")), "0%");
    assert_eq!(read_cpu_usage(Some("cpu 7 0 0 0")), "100%");
    assert_eq!(cpu_percent(1, 2, 3, 4), 60);
    assert_eq!(cpu_percent(199, 0, 0, 1), 99);
}

#[test]
fn cpu_usage_of_a_real_statistics_file() {
    let stat = "cpu  74608 2520 24433 1117073 6176 4054 0 0 0 0\n\
                cpu0 17516 410 6027 279410 1540 1019 0 0 0 0\n\
                intr 1462898 0 0 0\nctxt 115315\nbtime 1700000000\n";
    // total = 1218634, busy = 101561, 100 * busy / total = 8.33..
    assert_eq!(read_cpu_usage(Some(stat)), "8%");
    assert_eq!(cpu_usage(stat), Some(8));
}

#[test]
fn cpu_usage_with_no_time_counted_is_zero() {
    assert_eq!(read_cpu_usage(Some("cpu 0 0 0 0")), "0%");
    assert_eq!(cpu_percent(0, 0, 0, 0), 0);
}

#[test]
fn cpu_usage_without_five_fields_is_unavailable() {
    assert_eq!(read_cpu_usage(Some("")), "N/A");
    assert_eq!(read_cpu_usage(Some("\n")), "N/A");
    assert_eq!(read_cpu_usage(Some("cpu")), "N/A");
    assert_eq!(read_cpu_usage(Some("cpu 1 2 3")), "N/A");
    assert_eq!(read_cpu_usage(Some("cpu 1 2 3\n4 5 6 7 8")), "N/A");
    assert_eq!(read_cpu_usage(Some("\ncpu 1 2 3 4")), "N/A");
}

#[test]
fn cpu_usage_with_a_field_that_is_no_number_is_unavailable() {
    assert_eq!(read_cpu_usage(Some("cpu x 2 3 4")), "N/A");
    assert_eq!(read_cpu_usage(Some("cpu 1 -2 3 4")), "N/A");
    assert_eq!(read_cpu_usage(Some("cpu 1 2 3.5 4")), "N/A");
    assert_eq!(read_cpu_usage(Some("cpu 1 2 3 4a")), "N/A");
    assert_eq!(read_cpu_usage(Some("cpu 1 2 3 18446744073709551616")), "N/A");
    assert_eq!(cpu_usage("cpu 1 2 3 +"), None);
}

#[test]
fn cpu_usage_of_an_unreadable_file_is_unavailable() {
    assert_eq!(read_cpu_usage(None), "N/A");
}

#[test]
fn cpu_usage_ignores_the_first_field_and_what_follows_the_fifth() {
    assert_eq!(read_cpu_usage(Some("anything 1 1 1 1 junk more")), "75%");
    assert_eq!(read_cpu_usage(Some("\t cpu\t1  1\u{a0}1\u{2003}1\r\n")), "75%");
    assert_eq!(read_cpu_usage(Some("cpu +1 +1 +1 +1")), "75%");
    assert_eq!(read_cpu_usage(Some("cpu 01 001 1 0001")), "75%");
}

#[test]
fn cpu_usage_of_the_largest_counters_does_not_overflow() {
    let max = u64::MAX;
    assert_eq!(cpu_percent(max, max, max, max), 75);
    assert_eq!(cpu_percent(max, 0, 0, 0), 100);
    assert_eq!(cpu_percent(0, 0, 0, max), 0);
    let line = format!("cpu {max} {max} {max} {max}");
    assert_eq!(read_cpu_usage(Some(&line)), "75%");
}

#[test]
fn gpu_usage_is_the_number_in_the_file() {
    assert_eq!(read_gpu_usage(Some("42\n")), "42%");
    assert_eq!(read_gpu_usage(Some("0")), "0%");
    assert_eq!(read_gpu_usage(Some("  100 \t\n")), "100%");
    assert_eq!(read_gpu_usage(Some("+7")), "7%");
    assert_eq!(read_gpu_usage(Some("007")), "7%");
    assert_eq!(read_gpu_usage(Some("4294967295")), "4294967295%");
    assert_eq!(gpu_usage("250"), Some(250));
}

#[test]
fn gpu_usage_of_what_is_no_number_is_unavailable() {
    assert_eq!(read_gpu_usage(Some("")), "N/A");
    assert_eq!(read_gpu_usage(Some("   ")), "N/A");
    assert_eq!(read_gpu_usage(Some("busy")), "N/A");
    assert_eq!(read_gpu_usage(Some("12 %")), "N/A");
    assert_eq!(read_gpu_usage(Some("1 2")), "N/A");
    assert_eq!(read_gpu_usage(Some("-1")), "N/A");
    assert_eq!(read_gpu_usage(Some("4294967296")), "N/A");
    assert_eq!(read_gpu_usage(Some("+")), "N/A");
    assert_eq!(gpu_usage("12.5"), None);
}

#[test]
fn gpu_usage_of_an_unreadable_file_is_unavailable() {
    assert_eq!(read_gpu_usage(None), "N/A");
}

#[test]
fn usage_is_shown_with_a_percent_sign() {
    assert_eq!(format_usage(Some(0)), "0%");
    assert_eq!(format_usage(Some(9)), "9%");
    assert_eq!(format_usage(Some(10)), "10%");
    assert_eq!(format_usage(Some(u64::MAX)), "18446744073709551615%");
    assert_eq!(format_usage(None), "N/A");
}

#[test]
fn reading_twice_gives_the_same_text() {
    let stat = "cpu 10 20 30 40 50";
    assert_eq!(read_cpu_usage(Some(stat)), read_cpu_usage(Some(stat)));
    assert_eq!(read_gpu_usage(Some("13\n")), read_gpu_usage(Some("13\n")));
}

#[test]
fn decimal_is_written_as_the_standard_library_writes_it() {
    for n in [0u64, 1, 9, 10, 11, 99, 100, 101, 12345, 1 << 32, u64::MAX - 1, u64::MAX] {
        assert_eq!(render_decimal(n), n.to_string());
    }
}

#[test]
fn numbers_are_read_as_the_standard_library_reads_them() {
    let samples = [
        "", "+", "-", "0", "+0", "-0", "00", "1", "+1", "++1", "1+", " 1", "1 ", "12a", "a12",
        "18446744073709551615", "18446744073709551616", "99999999999999999999999", "4294967295",
        "4294967296", "١٢", "1_000", "0x10", "1e3",
    ];
    for sample in samples {
        let chars = chars_of(sample);
        assert_eq!(parse_number(&chars, u64::MAX), sample.parse::<u64>().ok(), "{sample:?}");
        assert_eq!(
            parse_number(&chars, 0xffff_ffff),
            sample.parse::<u32>().ok().map(u64::from),
            "{sample:?}"
        );
    }
    assert_eq!(parse_number(&chars_of("9"), 8), None);
    assert_eq!(parse_number(&chars_of("8"), 8), Some(8));
    assert_eq!(parse_number(&chars_of("0"), 0), Some(0));
    assert_eq!(parse_number(&chars_of("10"), 9), None);
}

#[test]
fn text_is_cut_as_the_standard_library_cuts_it() {
    let samples = [
        "", " ", "a", " a ", "a b", "  a\t\tb  ", "cpu  1 2 3 4\nnext line", "\n", "a\r\nb",
        "a\rb", "x\u{a0}y\u{2003}z\u{3000}", "\u{85}a\u{1680}", "é ü\u{2028}ß", "a\u{200b}b",
        "one\ntwo\nthree", "\u{b}\u{c}v", "trailing\n",
    ];
    for sample in samples {
        let chars = chars_of(sample);
        assert_eq!(chars, sample.chars().collect::<Vec<char>>());
        let fields: Vec<String> = fields_of(&chars).iter().map(|field| text(field)).collect();
        let expected: Vec<String> = sample.split_whitespace().map(String::from).collect();
        assert_eq!(fields, expected, "{sample:?}");
        assert_eq!(text(&trim(&chars)), sample.trim(), "{sample:?}");
        let first = sample.split('\n').next().unwrap_or("");
        assert_eq!(text(&line_of(&chars)), first, "{sample:?}");
    }
    for code in 0u32..0x3100 {
        if let Some(c) = char::from_u32(code) {
            assert_eq!(whitespace(c), c.is_whitespace(), "{code:#x}");
        }
    }
}
