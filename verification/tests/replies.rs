use multibot::commands::{
    ferris_say, high_five, lurk, ping, reload_config, roll, say_or_apologize,
    strip_command_prefix, whoami, FRAME_WIDTH, MAX_FRAME_TEXT,
};

#[test]
fn fixed_replies() {
    assert_eq!(ping(), "pong");
    assert_eq!(high_five(), "👏");
    assert_eq!(whoami(&"ferris".to_string()), "You are ferris!");
    assert_eq!(lurk(&"ferris".to_string()), "You are now lurking, ferris");
    reload_config();
}

#[test]
fn command_prefix_is_stripped() {
    assert_eq!(strip_command_prefix(&"bot? roll 6".to_string()), "roll 6");
    assert_eq!(strip_command_prefix(&"bot?".to_string()), "bot?");
    assert_eq!(strip_command_prefix(&" x".to_string()), "x");
    assert_eq!(strip_command_prefix(&"a ".to_string()), "");
    assert_eq!(strip_command_prefix(&"".to_string()), "");
}

#[test]
fn roll_is_within_the_faces() {
    for sides in [0u64, 1, 2, 3, 6, 100] {
        let faces = if sides < 2 { 2 } else { sides };
        for _ in 0..200 {
            let shown = roll(sides);
            assert!(1 <= shown && shown <= faces);
        }
    }
    assert!((1..=u64::MAX).contains(&roll(u64::MAX)));
}

#[test]
fn roll_shows_every_face_about_as_often() {
    let mut counts = [0u32; 6];
    for _ in 0..12_000 {
        counts[(roll(6) - 1) as usize] += 1;
    }
    for count in counts {
        assert!(count > 1_700 && count < 2_300);
    }
}

#[test]
fn ferris_says_it_in_a_bubble() {
    assert_eq!(FRAME_WIDTH, 36);
    assert_eq!(
        ferris_say(&"Hello fellow Rustaceans!".to_string()),
        " __________________________\n< Hello fellow Rustaceans! >\n --------------------------\n        \\\n         \\\n            _~^~^~_\n        \\) /  o o  \\ (/\n          '_   -   _'\n          / '-----' \\\n"
    );
}

#[test]
fn long_text_is_wrapped_at_the_width() {
    let said = ferris_say(&"one two three four five six seven eight nine ten eleven".to_string());
    let lines: Vec<&str> = said.lines().collect();
    assert_eq!(lines[1], "/ one two three four five six seven \\");
    assert_eq!(lines[2], "\\ eight nine ten eleven             /");
    for line in &lines[1..3] {
        assert_eq!(line.chars().count(), 33 + 4);
    }
    let wide = ferris_say(&"x".repeat(80));
    let rows: Vec<&str> = wide.lines().collect();
    assert_eq!(rows[1], format!("/ {} \\", "x".repeat(36)));
    assert_eq!(rows[3], format!("\\ {}{} /", "x".repeat(8), " ".repeat(28)));
}

#[test]
fn bytes_that_are_no_text_become_an_apology() {
    assert_eq!(say_or_apologize(Ok(vec![b'o', b'k'])), "ok");
    let apology = say_or_apologize(Ok(vec![0xff, 0xfe]));
    assert!(apology.starts_with("Ferris wasn't able to say anything: "));
    assert!(apology.len() > "Ferris wasn't able to say anything: ".len());
    assert_eq!(
        say_or_apologize(Err("no ink".to_string())),
        "Ferris wasn't able to say anything: no ink"
    );
}

#[test]
fn text_that_is_too_long_is_not_framed() {
    assert_eq!(MAX_FRAME_TEXT, 100_000);
    let longest = "é ".repeat(50_000);
    assert_eq!(longest.chars().count(), 100_000);
    assert!(ferris_say(&longest).starts_with(" ___"));
    let longer = format!("{longest}x");
    assert_eq!(ferris_say(&longer), "Ferris wasn't able to say anything: the text is too long");
}
