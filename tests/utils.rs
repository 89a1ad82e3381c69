use maintui::count_lines;
use maintui::pretty_size as f;

#[test]
fn pretty_size() {
    const K: u64 = 1024;
    const M: u64 = 1024 * K;
    const G: u64 = 1024 * M;
    const T: u64 = 1024 * G;
    const P: u64 = 1024 * T;

    assert_eq!(f(0), "0 B");
    assert_eq!(f(1023), "1023 B");
    assert_eq!(f(1024), "1 KiB");
    assert_eq!(f(1126), "1 KiB");
    assert_eq!(f(1127), "1.1 KiB");
    assert_eq!(f(1536), "1.5 KiB");

    assert_eq!(f(2 * M), "2 MiB");
    assert_eq!(f(3 * M + 1), "3 MiB");
    assert_eq!(f(8 * M + 512 * K), "8.5 MiB");
    assert_eq!(f(9 * M + M / 10 + 1), "9.1 MiB");
    assert_eq!(f(9 * M + M / 10 * 3 + 1), "9.3 MiB");

    assert_eq!(f(11 * G), "11 GiB");
    assert_eq!(f(16 * T), "16 TiB");
    assert_eq!(f(24 * P), "24 PiB");
}

#[test]
fn pretty_size_rounds_up_to_next_whole() {
    // 1.96 KiB shows one decimal, rounded
    assert_eq!(f(2007), "2.0 KiB");
    assert_eq!(f(1u64 << 60), "1024 PiB");
}

#[test]
fn count_lines_wraps_words() {
    assert_eq!(count_lines("", 10), 1);
    assert_eq!(count_lines("hello world", 20), 1);
    // "hello" takes 6 columns with its space; "world" no longer fits in 8
    assert_eq!(count_lines("hello world", 8), 2);
    assert_eq!(count_lines("a b c d", 3), 2);
}
