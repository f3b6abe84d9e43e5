use ip_to_file::history::{AddressHistory, HISTORY_LIMIT};

fn contents(h: &AddressHistory) -> Vec<Vec<u32>> {
    let mut out = Vec::new();
    for i in 0..h.len() {
        out.push(h.get(i).clone());
    }
    out
}

#[test]
fn five_ticks_keep_the_last_four() {
    let mut h = AddressHistory::new();
    for s in 1u32..=5 {
        h.record(vec![s]);
    }
    assert_eq!(contents(&h), vec![vec![2], vec![3], vec![4], vec![5]]);
}

#[test]
fn many_ticks_never_exceed_the_limit() {
    let mut h = AddressHistory::new();
    for s in 0u32..20 {
        h.record(vec![s, s + 100]);
        assert!(h.len() <= HISTORY_LIMIT);
        assert_eq!(h.len(), std::cmp::min(s as usize + 1, HISTORY_LIMIT));
        assert_eq!(h.get(h.len() - 1), &vec![s, s + 100]);
    }
    assert_eq!(
        contents(&h),
        vec![vec![16, 116], vec![17, 117], vec![18, 118], vec![19, 119]]
    );
}

#[test]
fn render_empty_history() {
    assert_eq!(AddressHistory::new().render(), b"[]".to_vec());
}

#[test]
fn render_history_as_pretty_debug_list() {
    let mut h = AddressHistory::new();
    h.record(vec![0x0A00_0005, 0xC0A8_0114]);
    h.record(vec![]);
    let text = String::from_utf8(h.render()).unwrap();
    assert_eq!(
        text,
        "[\n    [\n        10.0.0.5,\n        192.168.1.20,\n    ],\n    [],\n]"
    );
}

#[test]
fn render_octets_of_every_width() {
    let mut h = AddressHistory::new();
    h.record(vec![0x0009_63FF]);
    let text = String::from_utf8(h.render()).unwrap();
    assert_eq!(text, "[\n    [\n        0.9.99.255,\n    ],\n]");
}
