use bfconstructor::emit::{
    copy_right, encode_string, move_left, move_right, number, replicate, text_encoder,
};
use bfconstructor::text::make_indent;

#[test]
fn replicate_repeats_its_argument() {
    assert_eq!(replicate(3, "ab"), "ababab");
    assert_eq!(replicate(0, "ab"), "");
    assert_eq!(replicate(5, ""), "");
}

#[test]
fn number_is_a_run_of_plus_signs() {
    assert_eq!(number(0), "");
    assert_eq!(number(4), "++++");
}

#[test]
fn text_encoder_yields_code_points() {
    assert_eq!(text_encoder("ABCDE"), vec![65, 66, 67, 68, 69]);
    assert_eq!(text_encoder("abcde"), vec![97, 98, 99, 100, 101]);
    assert_eq!(text_encoder(""), Vec::<u32>::new());
}

#[test]
fn encode_string_intercalates_and_terminates() {
    let expected = format!("{}.>{}.>", "+".repeat(65), "+".repeat(66));
    assert_eq!(encode_string("AB"), expected);
    assert_eq!(encode_string(""), ".>");
}

#[test]
fn move_snippets_have_the_expected_shape() {
    assert_eq!(move_left(2), "<<[-]>>[<<+>>-]");
    assert_eq!(move_left(0), "[-][+-]");
    assert_eq!(move_right(1), "[-]<[>+<-]>");
    assert_eq!(copy_right(1), "[-]<[>+>+<<-]>>[<<+>>-]<");
}

#[test]
fn make_indent_multiplies_levels() {
    assert_eq!(make_indent(3, 4), " ".repeat(12));
    assert_eq!(make_indent(0, 4), "");
    assert_eq!(make_indent(2, 0), "");
}
