use cargo_rush::response::{classify, whitespace, Answer};

fn by_std(reply: &str) -> Answer {
    let normal = reply.trim().to_lowercase();
    if normal.is_empty() || normal == "y" {
        Answer::Accept
    } else if normal == "n" {
        Answer::Decline
    } else {
        Answer::Invalid
    }
}

#[test]
fn empty_reply_accepts() {
    assert_eq!(classify(""), Answer::Accept);
    assert_eq!(classify("\n"), Answer::Accept);
    assert_eq!(classify("  \t \r\n"), Answer::Accept);
}

#[test]
fn yes_in_either_case_accepts() {
    assert_eq!(classify("y"), Answer::Accept);
    assert_eq!(classify("Y"), Answer::Accept);
    assert_eq!(classify("y\n"), Answer::Accept);
    assert_eq!(classify("  Y \r\n"), Answer::Accept);
}

#[test]
fn no_in_either_case_declines() {
    assert_eq!(classify("n"), Answer::Decline);
    assert_eq!(classify("N"), Answer::Decline);
    assert_eq!(classify("n\n"), Answer::Decline);
    assert_eq!(classify("\t N  \n"), Answer::Decline);
}

#[test]
fn anything_else_is_invalid() {
    assert_eq!(classify("maybe"), Answer::Invalid);
    assert_eq!(classify("yes"), Answer::Invalid);
    assert_eq!(classify("no"), Answer::Invalid);
    assert_eq!(classify("y n"), Answer::Invalid);
    assert_eq!(classify("yy"), Answer::Invalid);
    assert_eq!(classify("0"), Answer::Invalid);
    assert_eq!(classify(" . \n"), Answer::Invalid);
}

#[test]
fn unicode_space_is_trimmed() {
    assert_eq!(classify("\u{3000}n\u{a0}"), Answer::Decline);
    assert_eq!(classify("\u{2003}y\u{2028}"), Answer::Accept);
    assert_eq!(classify("\u{85}\u{1680}"), Answer::Accept);
    assert_eq!(classify("\u{200b}"), Answer::Invalid);
}

#[test]
fn whitespace_is_what_std_says() {
    let mut code: u32 = 0;
    while code <= 0x10FFFF {
        if let Some(c) = char::from_u32(code) {
            assert_eq!(whitespace(c), c.is_whitespace(), "U+{:04X}", code);
        }
        code += 1;
    }
}

#[test]
fn single_characters_read_as_std_reads_them() {
    let mut code: u32 = 0;
    while code <= 0x10FFFF {
        if let Some(c) = char::from_u32(code) {
            let reply = c.to_string();
            assert_eq!(classify(&reply), by_std(&reply), "U+{:04X}", code);
        }
        code += 1;
    }
}

#[test]
fn padded_replies_read_as_std_reads_them() {
    let pads = ["", " ", "\n", "\r\n", "\t ", "\u{a0}", "\u{2009}\u{3000}", "x", "\u{200b}"];
    let cores = ["", "y", "Y", "n", "N", "yes", "No", "y y", "n\tn", "ÿ", "İ", "Σ", "K", "\u{212a}"];
    for front in pads.iter() {
        for core in cores.iter() {
            for back in pads.iter() {
                let reply = format!("{}{}{}", front, core, back);
                assert_eq!(classify(&reply), by_std(&reply), "{:?}", reply);
            }
        }
    }
}
