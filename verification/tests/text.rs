use paimon::text::{
    chars_of, cut_after, cut_before, ends_with, find_from, includes, matches_at, replace, same,
    slice_of, space, starts_with, string_of, tail_after, to_u64, trimmed, unquoted,
};

fn cs(s: &str) -> Vec<char> {
    s.chars().collect()
}

#[test]
fn chars_and_back() {
    assert_eq!(chars_of("héllo"), vec!['h', 'é', 'l', 'l', 'o']);
    assert_eq!(string_of(&vec!['h', 'é', 'l', 'l', 'o']), "héllo");
    assert_eq!(string_of(&chars_of("")), "");
    assert_eq!(string_of(&chars_of("a/b?c")), "a/b?c");
}

#[test]
fn finds_the_first_occurrence() {
    assert_eq!(find_from(&cs("abcabc"), &cs("bc"), 0), Some(1));
    assert_eq!(find_from(&cs("abcabc"), &cs("bc"), 2), Some(4));
    assert_eq!(find_from(&cs("abcabc"), &cs("bc"), 5), None);
    assert_eq!(find_from(&cs("abc"), &cs("abcd"), 0), None);
    assert_eq!(find_from(&cs("abc"), &cs(""), 3), Some(3));
    assert_eq!(find_from(&cs("abc"), &cs(""), 4), None);
    assert!(matches_at(&cs("abc"), &cs("bc"), 1));
    assert!(!matches_at(&cs("abc"), &cs("bc"), 2));
    assert!(includes(&cs("a !ignore"), &cs("!ignore")));
    assert!(!includes(&cs("a !ignor"), &cs("!ignore")));
}

#[test]
fn prefix_and_suffix() {
    assert!(starts_with(&cs("// note"), &cs("//")));
    assert!(!starts_with(&cs("/ note"), &cs("//")));
    assert!(ends_with(&cs("a.pdf"), &cs(".pdf")));
    assert!(!ends_with(&cs("pdf"), &cs(".pdf")));
    assert!(ends_with(&cs("a"), &cs("")));
    assert!(same(&cs("abc"), &cs("abc")));
    assert!(!same(&cs("abc"), &cs("abd")));
    assert!(!same(&cs("abc"), &cs("ab")));
}

#[test]
fn replace_is_what_std_does() {
    let cases = [
        ("a/abs/b/abs/c", "/abs/", "/pdf/"),
        ("aaaa", "aa", "b"),
        ("aaa", "aa", "b"),
        ("abc", "x", "y"),
        ("", "x", "y"),
        ("x", "x", ""),
        ("{{ a }}{{ a }}", "{{ a }}", "{{ a }}!"),
    ];
    for (s, pat, to) in cases {
        assert_eq!(string_of(&replace(&cs(s), &cs(pat), &cs(to))), s.replace(pat, to));
    }
    assert_eq!(string_of(&replace(&cs("abc"), &cs(""), &cs("-"))), "abc");
}

#[test]
fn trim_is_what_std_does() {
    let cases = [
        "  a b  ",
        "\t\r\n x \u{a0}\u{2003}\u{3000}",
        "",
        "   ",
        "x",
        "\u{85}x\u{1680}",
        "\u{200b}x",
        "\u{2028}\u{2029}\u{202f}\u{205f}y\u{b}\u{c}",
    ];
    for s in cases {
        assert_eq!(string_of(&trimmed(&cs(s))), s.trim());
    }
    assert!(space(' '));
    assert!(space('\u{200a}'));
    assert!(!space('\u{200b}'));
    assert!(!space('a'));
}

#[test]
fn cuts() {
    assert_eq!(string_of(&cut_before(&cs("a?b?c"), &cs("?"))), "a");
    assert_eq!(string_of(&cut_before(&cs("abc"), &cs("?"))), "abc");
    assert_eq!(cut_after(&cs("k=v=w"), &cs("=")).map(|v| string_of(&v)), Some("v=w".to_string()));
    assert_eq!(cut_after(&cs("kv"), &cs("=")), None);
    assert_eq!(string_of(&tail_after(&cs("a/b/c"), '/')), "c");
    assert_eq!(string_of(&tail_after(&cs("a/b/"), '/')), "");
    assert_eq!(string_of(&tail_after(&cs("abc"), '/')), "abc");
    assert_eq!(string_of(&slice_of(&cs("abcdef"), 2, 4)), "cd");
    assert_eq!(string_of(&unquoted(&cs("\"a b\""))), "a b");
    assert_eq!(string_of(&unquoted(&cs("\"a b"))), "\"a b");
    assert_eq!(string_of(&unquoted(&cs("\""))), "\"");
    assert_eq!(string_of(&unquoted(&cs("\"\""))), "");
}

#[test]
fn decimal_numbers() {
    assert_eq!(to_u64(&cs("0")), Some(0));
    assert_eq!(to_u64(&cs("8192")), Some(8192));
    assert_eq!(to_u64(&cs("+12")), Some(12));
    assert_eq!(to_u64(&cs("007")), Some(7));
    assert_eq!(to_u64(&cs("18446744073709551615")), Some(u64::MAX));
    assert_eq!(to_u64(&cs("18446744073709551616")), None);
    assert_eq!(to_u64(&cs("99999999999999999999999")), None);
    assert_eq!(to_u64(&cs("")), None);
    assert_eq!(to_u64(&cs("+")), None);
    assert_eq!(to_u64(&cs("-1")), None);
    assert_eq!(to_u64(&cs("12a")), None);
    assert_eq!(to_u64(&cs(" 12")), None);
    for s in ["0", "+5", "123456", "", "+", "++1", "1 ", "18446744073709551615", "18446744073709551616"] {
        assert_eq!(to_u64(&cs(s)), s.parse::<u64>().ok());
    }
}

#[test]
fn white_space_is_what_std_calls_it() {
    for n in 0..=0x10ffffu32 {
        if let Some(c) = char::from_u32(n) {
            assert_eq!(space(c), c.is_whitespace(), "U+{:04X}", n);
        }
    }
}

#[test]
fn text_functions_agree_with_std_on_many_inputs() {
    let alphabet = ['a', 'b', '/', ' ', '!', '\n'];
    let mut seed: u64 = 0x2545_f491_4f6c_dd1d;
    let mut next = move |bound: usize| {
        seed = seed.wrapping_mul(6364136223846793005).wrapping_add(1442695040888963407);
        ((seed >> 33) as usize) % bound
    };
    for _ in 0..2000 {
        let s: String = (0..next(12)).map(|_| alphabet[next(alphabet.len())]).collect();
        let pat: String = (0..1 + next(3)).map(|_| alphabet[next(alphabet.len())]).collect();
        let to: String = (0..next(3)).map(|_| alphabet[next(alphabet.len())]).collect();
        assert_eq!(string_of(&replace(&cs(&s), &cs(&pat), &cs(&to))), s.replace(&pat, &to));
        assert_eq!(string_of(&trimmed(&cs(&s))), s.trim());
        assert_eq!(find_from(&cs(&s), &cs(&pat), 0), s.find(&pat));
        assert_eq!(starts_with(&cs(&s), &cs(&pat)), s.starts_with(&pat));
        assert_eq!(ends_with(&cs(&s), &cs(&pat)), s.ends_with(&pat));
        assert_eq!(includes(&cs(&s), &cs(&pat)), s.contains(&pat));
        assert_eq!(
            string_of(&tail_after(&cs(&s), '/')),
            s.rsplit('/').next().unwrap_or("")
        );
    }
}
