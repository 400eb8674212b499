use playing_with_hlists::display::MyDisplay;
use playing_with_hlists::sink::{FormatError, Sink};
use playing_with_hlists::{HeterogenousList, ListTerminator};

fn three() -> HeterogenousList<
    &'static str,
    HeterogenousList<i32, HeterogenousList<String, ListTerminator>>,
> {
    HeterogenousList {
        head: "abcde",
        tail: HeterogenousList {
            head: 123,
            tail: HeterogenousList { head: String::from("Wow!"), tail: ListTerminator },
        },
    }
}

fn written_within(limit: usize) -> (Result<(), FormatError>, String, Option<usize>) {
    let mut f = Sink::bounded(limit);
    let r = three().fmt(&mut f);
    let room = f.remaining();
    (r, f.into_string(), room)
}

#[test]
fn unbounded_sink_starts_empty_and_takes_everything() {
    let mut f = Sink::unbounded();
    assert_eq!("", f.as_str());
    assert_eq!(None, f.remaining());
    assert_eq!(Ok(()), f.write_str("abc"));
    assert_eq!(Ok(()), f.write_char('d'));
    assert_eq!(Ok(()), f.write_str(""));
    assert_eq!("abcd", f.as_str());
    assert_eq!(None, f.remaining());
    assert_eq!("abcd", f.into_string());
}

#[test]
fn bounded_sink_counts_characters_down() {
    let mut f = Sink::bounded(5);
    assert_eq!(Some(5), f.remaining());
    assert_eq!(Ok(()), f.write_str("ab"));
    assert_eq!(Some(3), f.remaining());
    assert_eq!(Ok(()), f.write_char('c'));
    assert_eq!(Some(2), f.remaining());
    assert_eq!("abc", f.as_str());
}

#[test]
fn bounded_sink_counts_characters_not_bytes() {
    let mut f = Sink::bounded(2);
    assert_eq!(Ok(()), f.write_str("\u{e9}\u{e9}"));
    assert_eq!(Some(0), f.remaining());
    assert_eq!("\u{e9}\u{e9}", f.as_str());
}

#[test]
fn write_that_does_not_fit_fails_and_leaves_the_sink() {
    let mut f = Sink::bounded(3);
    assert_eq!(Ok(()), f.write_str("ab"));
    assert_eq!(Err(FormatError), f.write_str("cd"));
    assert_eq!("ab", f.as_str());
    assert_eq!(Some(1), f.remaining());
    assert_eq!(Ok(()), f.write_char('c'));
    assert_eq!(Err(FormatError), f.write_char('d'));
    assert_eq!("abc", f.as_str());
    assert_eq!(Some(0), f.remaining());
    assert_eq!(Ok(()), f.write_str(""));
}

#[test]
fn sink_of_no_room_takes_only_the_empty_text() {
    let mut f = Sink::bounded(0);
    assert_eq!(Err(FormatError), f.write_char('a'));
    assert_eq!(Err(FormatError), f.write_str("a"));
    assert_eq!(Ok(()), f.write_str(""));
    assert_eq!("", f.as_str());
}

#[test]
fn list_that_fits_exactly_is_written_whole() {
    assert_eq!((Ok(()), String::from("abcde, 123, Wow!"), Some(0)), written_within(16));
    assert_eq!((Ok(()), String::from("abcde, 123, Wow!"), Some(4)), written_within(20));
}

#[test]
fn list_stops_at_the_first_piece_that_does_not_fit() {
    assert_eq!((Err(FormatError), String::from("abcde, 123, "), Some(3)), written_within(15));
    assert_eq!((Err(FormatError), String::from("abcde, 123, "), Some(0)), written_within(12));
    assert_eq!((Err(FormatError), String::from("abcde, 123"), Some(1)), written_within(11));
    assert_eq!((Err(FormatError), String::from("abcde, 123"), Some(0)), written_within(10));
    assert_eq!((Err(FormatError), String::from("abcde, "), Some(2)), written_within(9));
    assert_eq!((Err(FormatError), String::from("abcde, "), Some(0)), written_within(7));
    assert_eq!((Err(FormatError), String::from("abcde"), Some(1)), written_within(6));
    assert_eq!((Err(FormatError), String::from("abcde"), Some(0)), written_within(5));
    assert_eq!((Err(FormatError), String::from(""), Some(4)), written_within(4));
    assert_eq!((Err(FormatError), String::from(""), Some(0)), written_within(0));
}

#[test]
fn list_is_written_behind_what_the_sink_holds() {
    let mut f = Sink::bounded(20);
    assert_eq!(Ok(()), f.write_str("[ "));
    assert_eq!(Ok(()), three().fmt(&mut f));
    assert_eq!(Ok(()), f.write_str(" ]"));
    assert_eq!("[ abcde, 123, Wow! ]", f.as_str());
    assert_eq!(Some(0), f.remaining());
}

#[test]
fn later_piece_that_would_fit_is_not_written_after_a_failure() {
    let list = HeterogenousList {
        head: "abcdef",
        tail: HeterogenousList { head: "g", tail: ListTerminator },
    };
    let mut f = Sink::bounded(4);
    assert_eq!(Err(FormatError), list.fmt(&mut f));
    assert_eq!("", f.as_str());
    assert_eq!(Some(4), f.remaining());
}
