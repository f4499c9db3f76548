use retis::display::{
    DelimWriter, DisplayFormat, DisplayFormatFlavor, Formatter, FormatterConf, TimeFormat,
};
use retis::time::TimeSpec;

#[test]
fn formatter_prefixes_every_line() {
    let mut f = Formatter::new(FormatterConf::with_level(2));
    f.write_str("a\nb\n");
    assert_eq!(f.finish(), "  a\n  b\n");
}

#[test]
fn formatter_prefixes_the_first_line_on_the_first_write() {
    let mut f = Formatter::new(FormatterConf::with_level(3));
    f.write_str("");
    f.flush_buf();
    f.write_str("x");
    f.write_str("y\nz");
    assert_eq!(f.finish(), "   xy\n   z");
}

#[test]
fn formatter_keeps_empty_lines_indented() {
    let mut f = Formatter::new(FormatterConf::with_level(1));
    f.write_str("a\n\nb");
    assert_eq!(f.finish(), " a\n \n b");
}

#[test]
fn formatter_without_text_writes_nothing() {
    let f = Formatter::new(FormatterConf::with_level(4));
    assert_eq!(f.finish(), "");
}

#[test]
fn formatter_level_changes_between_writes() {
    let mut f = Formatter::new(FormatterConf::new());
    f.write_str("head\n");
    f.inc_level(4);
    f.write_str("nested\nmore");
    f.reset_level();
    f.write_str("\ntail");
    assert_eq!(f.finish(), "head\n    nested\n    more\ntail");
}

#[test]
fn formatter_level_change_in_the_middle_of_a_line() {
    let mut f = Formatter::new(FormatterConf::with_level(2));
    f.write_str("a");
    f.conf.inc_level(2);
    f.write_str("b\nc");
    assert_eq!(f.finish(), "  ab\n    c");
}

#[test]
fn formatter_numbers() {
    let mut f = Formatter::new(FormatterConf::new());
    f.write_dec(0);
    f.write_char(' ');
    f.write_dec(18446744073709551615);
    f.write_char(' ');
    f.write_hex(0);
    f.write_char(' ');
    f.write_hex(0x1234abcd);
    f.write_char(' ');
    f.write_signed_dec(-42);
    f.write_char(' ');
    f.write_signed_dec(i64::MIN);
    f.write_labeled_dec(" len ", 54, ";");
    f.write_labeled_hex(" hash ", 255, ";");
    f.write_fmt("!");
    assert_eq!(
        f.finish(),
        "0 18446744073709551615 0x0 0x1234abcd -42 -9223372036854775808 len 54; hash 0xff;!"
    );
}

#[test]
fn flush_moves_the_buffer() {
    let mut f = Formatter::new(FormatterConf::with_level(1));
    f.write_str("a\n");
    f.flush_buf();
    f.write_str("b");
    f.flush_buf();
    f.flush_buf();
    assert_eq!(f.finish(), " a\n b");
}

#[test]
fn inc_level_then_reset_level() {
    let mut conf = FormatterConf::with_level(3);
    conf.inc_level(4);
    assert_eq!(conf.level(), 7);
    conf.reset_level();
    assert_eq!(conf.level(), 3);
}

#[test]
fn reset_level_without_saved_level_changes_nothing() {
    let mut conf = FormatterConf::new();
    conf.reset_level();
    assert_eq!(conf.level(), 0);
    conf.inc_level(2);
    conf.inc_level(3);
    conf.reset_level();
    assert_eq!(conf.level(), 2);
    conf.reset_level();
    conf.reset_level();
    assert_eq!(conf.level(), 0);
}

#[test]
fn formatter_conf_clone_and_default() {
    let mut conf = FormatterConf::default();
    conf.inc_level(5);
    let mut copy = conf.clone();
    copy.reset_level();
    assert_eq!(conf.level(), 5);
    assert_eq!(copy.level(), 0);
}

#[test]
fn delim_writer_skips_the_first_delimiter() {
    let mut f = Formatter::new(FormatterConf::new());
    let mut comma = DelimWriter::new(',');
    assert!(!comma.used());
    comma.write(&mut f);
    f.write_str("a");
    assert!(comma.used());
    comma.write(&mut f);
    f.write_str("b");
    comma.write(&mut f);
    f.write_str("c");
    assert_eq!(f.finish(), "a,b,c");
}

#[test]
fn delim_writer_reset() {
    let mut f = Formatter::new(FormatterConf::new());
    let mut space = DelimWriter::new(' ');
    space.write(&mut f);
    f.write_str("a");
    space.reset();
    assert!(!space.used());
    space.write(&mut f);
    f.write_str("b");
    space.write(&mut f);
    f.write_str("c");
    assert_eq!(f.finish(), "ab c");
}

#[test]
fn display_format_new() {
    let single = DisplayFormat::new(DisplayFormatFlavor::SingleLine);
    assert_eq!(single.flavor, DisplayFormatFlavor::SingleLine);
    assert_eq!(single.time_format, TimeFormat::MonotonicTimestamp);
    assert!(!single.show_metadata);
    assert!(single.monotonic_offset.is_none());
    assert!(!single.print_ll);
    assert!(!single.multiline);
    let multi = DisplayFormat::new(DisplayFormatFlavor::MultiLine);
    assert!(multi.multiline);
    let default = DisplayFormat::default();
    assert_eq!(default.flavor, DisplayFormatFlavor::MultiLine);
    assert!(default.multiline);
    assert_eq!(DisplayFormatFlavor::default(), DisplayFormatFlavor::MultiLine);
    assert_eq!(TimeFormat::default(), TimeFormat::MonotonicTimestamp);
}

#[test]
fn display_format_setters() {
    let mut format = DisplayFormat::new(DisplayFormatFlavor::SingleLine);
    format.show_metadata();
    format.set_time_format(TimeFormat::UtcDate);
    format.set_monotonic_offset(TimeSpec::new(5, 6));
    assert!(format.show_metadata);
    assert_eq!(format.time_format, TimeFormat::UtcDate);
    assert_eq!(format.monotonic_offset, Some(TimeSpec::new(5, 6)));
    assert_eq!(format.flavor, DisplayFormatFlavor::SingleLine);
}
