use git_commit_sage::confirm::is_affirmative;

fn by_lowercase(input: &str) -> bool {
    matches!(input.trim().to_lowercase().as_str(), "y" | "yes")
}

#[test]
fn yes_in_any_case_is_affirmative() {
    for answer in ["y", "Y", "yes", "YES", "Yes", "yEs", "yeS", "YEs", "yES", "YeS"] {
        assert!(is_affirmative(answer));
    }
}

#[test]
fn white_space_around_the_answer_is_ignored() {
    assert!(is_affirmative("y\n"));
    assert!(is_affirmative("  yes\r\n"));
    assert!(is_affirmative("\tY "));
    assert!(!is_affirmative("y e s"));
    assert!(!is_affirmative("ye s\n"));
}

#[test]
fn everything_else_is_no() {
    for answer in ["", "\n", "n", "no", "N", "ye", "yess", "yes!", "yy", "j", "oui", "1", "true", "\u{fd}", "\u{ff59}"] {
        assert!(!is_affirmative(answer));
    }
}

#[test]
fn single_characters_agree_with_lowercasing() {
    for code in 0..=0x10FFFFu32 {
        if let Some(c) = char::from_u32(code) {
            let answer = c.to_string();
            assert_eq!(is_affirmative(&answer), by_lowercase(&answer), "U+{:04X}", code);
        }
    }
}

#[test]
fn no_other_character_lowers_to_a_letter_of_yes() {
    for code in 0..=0x10FFFFu32 {
        if let Some(c) = char::from_u32(code) {
            let lowered: String = c.to_lowercase().collect();
            let hits = lowered.contains('y') || lowered.contains('e') || lowered.contains('s');
            assert_eq!(hits, "yesYES".contains(c), "U+{:04X}", code);
        }
    }
}

#[test]
fn short_answers_agree_with_lowercasing() {
    let letters = ['y', 'Y', 'e', 'E', 's', 'S', 'n', ' ', '\u{17f}', '\u{3a3}', '\u{130}'];
    for a in letters {
        for b in letters {
            for c in letters {
                for d in letters {
                    let answer: String = [a, b, c, d].iter().collect();
                    assert_eq!(is_affirmative(&answer), by_lowercase(&answer), "{:?}", answer);
                }
            }
        }
    }
}
