use mirabel_sys::imgui::{
    input_text_buffer, input_text_result, DataType, IMGUITHIN_DATATYPE_S64, IMGUITHIN_DATATYPE_U8,
};
use mirabel_sys::log::log_line;

#[test]
fn input_text_buffer_pads_to_size() {
    assert_eq!(b"ab\0\0\0\0".to_vec(), input_text_buffer("ab".to_string(), 5));
}

#[test]
fn input_text_buffer_keeps_longer_text() {
    assert_eq!(b"abcd\0".to_vec(), input_text_buffer("abcd".to_string(), 2));
}

#[test]
fn input_text_result_after_change() {
    let buf = b"Some Characters\0\0\0";
    assert_eq!(Some("Some Characters".to_string()), input_text_result(buf, true, 2));
}

#[test]
fn input_text_result_without_change() {
    let buf = b"Enter\0\0";
    assert_eq!(Some("Ent".to_string()), input_text_result(buf, false, 3));
}

#[test]
fn input_text_result_rejects_broken_buffer() {
    assert_eq!(None, input_text_result(b"abc", true, 0));
    assert_eq!(None, input_text_result(&[0xff, 0], true, 0));
}

#[test]
fn log_line_frames_message() {
    assert_eq!(b"+ hello\n".to_vec(), log_line("hello"));
    assert_eq!(b"+ \n".to_vec(), log_line(""));
}

#[test]
fn data_type_tags() {
    assert_eq!(IMGUITHIN_DATATYPE_U8, <u8 as DataType>::enum_value());
    assert_eq!(IMGUITHIN_DATATYPE_S64, <i64 as DataType>::enum_value());
    assert_eq!(0, <i8 as DataType>::enum_value());
    assert_eq!(5, <u32 as DataType>::enum_value());
}
