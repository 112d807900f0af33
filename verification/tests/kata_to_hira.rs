use jp_deinflector::kata_to_hira;
use jp_deinflector::kata_to_hira::is_katakana;

#[test]
fn test_all_correct() {
    let kata = "アイウエオカキクケコサシスセソタチツテトナニヌネノハヒフヘホマミムメモヤユヨラリルレロワヲンガギグゲゴザジズゼゾダヂヅデドバビブベボパピプペポ";
    let hira = "あいうえおかきくけこさしすせそたちつてとなにぬねのはひふへほまみむめもやゆよらりるれろわをんがぎぐげござじずぜぞだぢづでどばびぶべぼぱぴぷぺぽ";
    assert_eq!(kata_to_hira(kata), hira);
}

#[test]
fn non_katakana_stay_unchanged() {
    let samples = [
        "",
        "hello, world",
        "食べる",
        "たべる",
        "タベル",
        "コーヒーを飲む",
        "ｶﾀｶﾅ",
        "゠ヷヸヹヺ・ーヽヾヿ",
        "a\u{0}\u{10FFFF}\u{D7FF}\u{E000}ア\u{30A0}\u{30F7}",
        "Ünïcödé ✓ 🍣 スシ",
    ];
    for s in samples {
        let converted = kata_to_hira(s);
        assert_eq!(s.chars().count(), converted.chars().count());
        for (input_char, output_char) in s.chars().zip(converted.chars()) {
            if !is_katakana(input_char) {
                assert_eq!(
                    input_char, output_char,
                    "Non-katakana character changed: {:?} -> {:?}",
                    input_char, output_char
                );
            }
        }
    }
}

#[test]
fn katakana_range_bounds() {
    assert_eq!(kata_to_hira("ァ"), "ぁ");
    assert_eq!(kata_to_hira("ヶ"), "ゖ");
    assert_eq!(kata_to_hira("\u{30A0}"), "\u{30A0}");
    assert_eq!(kata_to_hira("\u{30F7}"), "\u{30F7}");
    assert_eq!(kata_to_hira("アイウ"), "あいう");
}

#[test]
fn mixed_text_keeps_other_characters() {
    assert_eq!(kata_to_hira("タベた"), "たべた");
    assert_eq!(kata_to_hira("abc"), "abc");
    assert_eq!(kata_to_hira(""), "");
    assert_eq!(kata_to_hira("ラーメン"), "らーめん");
}
