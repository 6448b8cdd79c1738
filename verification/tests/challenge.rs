use hyper_bed_caller::challenge::build_challenge;
use hyper_bed_caller::challenge::generate_strict_challenge;
use hyper_bed_caller::challenge::script_glyphs;
use hyper_bed_caller::challenge::CHALLENGE_LENGTH;

#[test]
fn challenge_is_built_from_numbers() {
    let challenge = build_challenge(2, &vec![0, 1, 10, 9, 5]);
    assert_eq!(challenge.digits, "01X95");
    assert_eq!(challenge.answer, "零壹拾玖伍");
    assert_eq!(challenge.script, "零壹贰叁肆伍陆柒捌玖拾");
    let challenge = build_challenge(3, &vec![7, 8, 9, 10, 0, 1]);
    assert_eq!(challenge.digits, "789X01");
    assert_eq!(challenge.answer, "拐怕勾叉洞幺");
    let empty = build_challenge(0, &vec![]);
    assert_eq!(empty.digits, "");
    assert_eq!(empty.answer, "");
    assert_eq!(empty.script, "零一二三四五六七八九十");
}

#[test]
fn scripts_have_eleven_glyphs() {
    for script in 0..4 {
        assert_eq!(script_glyphs(script).chars().count(), 11);
    }
    assert_eq!(script_glyphs(1), "〇一二三四五六七八九十");
}

#[test]
fn a_fresh_challenge_has_thirty_digits() {
    let mut scripts_seen = std::collections::HashSet::new();
    let mut digits_seen = std::collections::HashSet::new();
    for _ in 0..200 {
        let challenge = generate_strict_challenge();
        assert_eq!(CHALLENGE_LENGTH, 30);
        assert_eq!(challenge.digits.chars().count(), 30);
        assert_eq!(challenge.answer.chars().count(), 30);
        let glyphs: Vec<char> = challenge.script.chars().collect();
        assert_eq!(glyphs.len(), 11);
        let shown: Vec<char> = "0123456789X".chars().collect();
        for (digit, glyph) in challenge.digits.chars().zip(challenge.answer.chars()) {
            let number = shown.iter().position(|c| *c == digit).expect("a digit or X");
            assert_eq!(glyph, glyphs[number]);
            digits_seen.insert(number);
        }
        scripts_seen.insert(challenge.script.clone());
    }
    // chance does its work: all scripts and all numbers turn up
    assert_eq!(scripts_seen.len(), 4);
    assert_eq!(digits_seen.len(), 11);
}
