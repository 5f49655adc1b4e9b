use ufmt::{Formatter, Padding};

fn field(content: &str, padding: Padding, pad_char: char) -> String {
    let mut out = String::new();
    let mut f = Formatter::new(&mut out);
    f.write_padded(content, padding, pad_char).unwrap();
    out
}

#[test]
fn left_aligned_fills_behind() {
    assert_eq!(Padding::LeftAligned(8).fill_counts(3), (0, 5));
    assert_eq!(field("abc", Padding::LeftAligned(8), '.'), "abc.....");
}

#[test]
fn right_aligned_fills_in_front() {
    assert_eq!(Padding::RightAligned(8).fill_counts(3), (5, 0));
    assert_eq!(field("abc", Padding::RightAligned(8), '.'), ".....abc");
}

#[test]
fn usual_is_right_aligned() {
    assert_eq!(Padding::Usual(8).fill_counts(3), (5, 0));
    assert_eq!(field("abc", Padding::Usual(8), ' '), "     abc");
}

#[test]
fn center_puts_the_odd_one_behind() {
    assert_eq!(Padding::CenterAligned(8).fill_counts(3), (2, 3));
    assert_eq!(field("abc", Padding::CenterAligned(8), '*'), "**abc***");
    assert_eq!(Padding::CenterAligned(7).fill_counts(3), (2, 2));
    assert_eq!(field("abc", Padding::CenterAligned(7), '*'), "**abc**");
    assert_eq!(field("abc", Padding::CenterAligned(4), '*'), "abc*");
}

#[test]
fn narrow_field_never_truncates() {
    let all = [
        Padding::LeftAligned(2),
        Padding::Usual(2),
        Padding::CenterAligned(2),
        Padding::RightAligned(2),
        Padding::LeftAligned(0),
        Padding::CenterAligned(5),
    ];
    for padding in all {
        assert_eq!(padding.fill_counts(5), (0, 0));
        assert_eq!(field("hello", padding, '#'), "hello");
    }
}

#[test]
fn field_length_is_the_wider_of_width_and_content() {
    for width in 0..12usize {
        for content in ["", "7", "-42", "1234567"] {
            for padding in [
                Padding::LeftAligned(width),
                Padding::Usual(width),
                Padding::CenterAligned(width),
                Padding::RightAligned(width),
            ] {
                let out = field(content, padding, ' ');
                assert_eq!(out.len(), width.max(content.len()));
                assert_eq!(out.trim(), content);
                let (lead, trail) = padding.fill_counts(content.len());
                assert_eq!(&out[lead..out.len() - trail], content);
            }
        }
    }
}

#[test]
fn length_is_counted_in_characters() {
    assert_eq!(field("é", Padding::RightAligned(3), '→'), "→→é");
    assert_eq!(field("日本", Padding::CenterAligned(5), '·'), "·日本··");
}

#[test]
fn empty_content_is_all_fill() {
    assert_eq!(field("", Padding::CenterAligned(3), 'x'), "xxx");
    assert_eq!(field("", Padding::LeftAligned(0), 'x'), "");
}

#[test]
fn huge_width_does_not_overflow_the_count() {
    assert_eq!(Padding::LeftAligned(usize::MAX).fill_counts(1), (0, usize::MAX - 1));
    assert_eq!(Padding::CenterAligned(usize::MAX).fill_counts(0), (usize::MAX / 2, usize::MAX / 2 + 1));
}
