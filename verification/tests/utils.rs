use nixrs::context::{
    Context, NIX_ERR_KEY, NIX_ERR_NIX_ERROR, NIX_ERR_OVERFLOW, NIX_ERR_UNKNOWN, NIX_OK,
};
use nixrs::engine::{Call, Function, Handle, Release, Reply, Shape};
use nixrs::utils::{build_cb, c_string, get_string_cb, string_from_c, Error, Outputs};
use nixrs::value::ValueType;

#[test]
fn c_string_appends_the_terminator() {
    assert_eq!(c_string("ab"), Ok(vec![b'a', b'b', 0]));
}

#[test]
fn c_string_of_empty_text_is_one_nul() {
    assert_eq!(c_string(""), Ok(vec![0]));
}

#[test]
fn c_string_keeps_the_bytes_of_text_beyond_ascii() {
    assert_eq!(c_string("é"), Ok(vec![0xc3, 0xa9, 0]));
}

#[test]
fn c_string_refuses_an_inner_nul() {
    assert_eq!(c_string("a\0b"), Err(Error::UnknownError));
}

#[test]
fn c_string_refuses_a_trailing_nul() {
    assert_eq!(c_string("ab\0"), Err(Error::UnknownError));
}

#[test]
fn string_from_c_decodes_utf8() {
    assert_eq!(string_from_c(vec![b'o', b'u', b't']), Ok("out".to_string()));
    assert_eq!(string_from_c(vec![0xc3, 0xa9]), Ok("é".to_string()));
    assert_eq!(string_from_c(vec![]), Ok(String::new()));
}

#[test]
fn string_from_c_refuses_bad_utf8() {
    assert_eq!(string_from_c(vec![0xff]), Err(Error::UnknownError));
    assert_eq!(string_from_c(vec![b'a', 0xc3]), Err(Error::UnknownError));
}

#[test]
fn get_string_cb_appends_each_chunk() {
    let mut buffer: Vec<u8> = Vec::new();
    get_string_cb(b"he", &mut buffer);
    get_string_cb(b"", &mut buffer);
    get_string_cb(b"llo", &mut buffer);
    assert_eq!(buffer, b"hello".to_vec());
}

#[test]
fn build_cb_records_an_output() {
    let mut outputs = Outputs::new();
    assert_eq!(build_cb(&mut outputs, b"out".to_vec(), b"/nix/store/x".to_vec()), Ok(()));
    assert_eq!(outputs.get("out"), Some(&"/nix/store/x".to_string()));
    assert_eq!(outputs.get("dev"), None);
}

#[test]
fn build_cb_refuses_bytes_that_are_no_text() {
    let mut outputs = Outputs::new();
    assert_eq!(build_cb(&mut outputs, vec![0xff], b"/nix/store/x".to_vec()), Err(Error::UnknownError));
    assert_eq!(build_cb(&mut outputs, b"out".to_vec(), vec![0xfe]), Err(Error::UnknownError));
    assert_eq!(outputs, Outputs::new());
}

#[test]
fn a_later_report_of_an_output_replaces_the_earlier() {
    let mut outputs = Outputs::new();
    outputs.insert("out".to_string(), "/a".to_string());
    outputs.insert("dev".to_string(), "/b".to_string());
    outputs.insert("out".to_string(), "/c".to_string());
    assert_eq!(outputs.get("out"), Some(&"/c".to_string()));
    assert_eq!(outputs.get("dev"), Some(&"/b".to_string()));
}

#[test]
fn each_status_has_its_error() {
    let text = || b"boom".to_vec();
    assert_eq!(Context::error(NIX_ERR_UNKNOWN, text()), Error::NixErrorUnknown("boom".to_string()));
    assert_eq!(Context::error(NIX_ERR_OVERFLOW, text()), Error::NixErrorOverflow("boom".to_string()));
    assert_eq!(Context::error(NIX_ERR_KEY, text()), Error::NixErrorKey("boom".to_string()));
    assert_eq!(Context::error(NIX_ERR_NIX_ERROR, text()), Error::NixErrorNixError("boom".to_string()));
}

#[test]
fn the_statuses_have_the_engines_numbers() {
    assert_eq!(NIX_OK, 0);
    assert_eq!(NIX_ERR_UNKNOWN, -1);
    assert_eq!(NIX_ERR_OVERFLOW, -2);
    assert_eq!(NIX_ERR_KEY, -3);
    assert_eq!(NIX_ERR_NIX_ERROR, -4);
}

#[test]
fn a_status_that_the_engine_does_not_document_is_unknown() {
    assert_eq!(Context::error(-5, b"boom".to_vec()), Error::UnknownError);
    assert_eq!(Context::error(7, b"boom".to_vec()), Error::UnknownError);
}

#[test]
fn a_message_that_is_no_text_hides_the_status() {
    assert_eq!(Context::error(NIX_ERR_KEY, vec![0xff]), Error::UnknownError);
}

#[test]
fn check_passes_success_and_fails_the_rest() {
    assert_eq!(Context::check(NIX_OK, b"stale".to_vec()), Ok(()));
    assert_eq!(
        Context::check(NIX_ERR_NIX_ERROR, b"no".to_vec()),
        Err(Error::NixErrorNixError("no".to_string()))
    );
}

#[test]
fn every_kind_is_read_from_its_number() {
    let kinds = [
        ValueType::Thunk,
        ValueType::Int,
        ValueType::Float,
        ValueType::Bool,
        ValueType::String,
        ValueType::Path,
        ValueType::Null,
        ValueType::Attrs,
        ValueType::List,
        ValueType::Function,
        ValueType::External,
    ];
    let mut ty: u32 = 0;
    for kind in kinds {
        assert_eq!(ValueType::from_raw(ty), Ok(kind));
        ty += 1;
    }
}

#[test]
fn a_number_that_names_no_kind_is_refused() {
    assert_eq!(ValueType::from_raw(11), Err(Error::UnknownError));
    assert_eq!(ValueType::from_raw(u32::MAX), Err(Error::UnknownError));
}

#[test]
fn a_reply_fits_the_call_whose_form_it_has() {
    let h = Handle { addr: 8 };
    assert!(Reply::Handle(h).fits(&Call::ContextCreate));
    assert!(!Reply::Nothing.fits(&Call::ContextCreate));
    assert!(Reply::Code(0).fits(&Call::ErrCode { ctx: h }));
    assert!(!Reply::Int(0).fits(&Call::ErrCode { ctx: h }));
    assert!(Reply::Bytes(vec![]).fits(&Call::ErrMsg { ctx: h }));
    let get_int = Call::Checked { ctx: h, function: Function::GetInt { value: h } };
    assert!(Reply::Int(3).fits(&get_int));
    assert!(!Reply::Bool(true).fits(&get_int));
}

#[test]
fn any_reply_fits_a_call_that_hands_nothing_back() {
    let h = Handle { addr: 8 };
    let release = Call::Release(Release::Store(h));
    assert_eq!(release.shape(), Shape::Nothing);
    assert!(Reply::Nothing.fits(&release));
    assert!(Reply::Int(1).fits(&release));
    let init = Call::Checked { ctx: h, function: Function::InitNull { value: h } };
    assert!(Reply::Code(0).fits(&init));
}

#[test]
fn every_error_says_what_it_is() {
    assert_eq!(Error::NixErrorUnknown("a".to_string()).to_string(), "NIX_ERROR_UNKNOWN: a");
    assert_eq!(Error::NixErrorOverflow("b".to_string()).to_string(), "NIX_ERROR_OVERFLOW: b");
    assert_eq!(Error::NixErrorKey("c".to_string()).to_string(), "NIX_ERROR_KEY: c");
    assert_eq!(Error::NixErrorNixError("d".to_string()).to_string(), "NIX_ERROR_NIX_ERROR: d");
    assert_eq!(Error::NotDerivation.to_string(), "value is not a derivation");
    assert_eq!(Error::UnknownError.to_string(), "unknown error");
}
