use organixm::errors::{ErrCtx, Error};

#[test]
fn context_builds_a_chain() {
    let e = Error::msg("failed to open file");
    let e = e.context("reading config from /etc/x");
    assert_eq!(e.chain, vec!["failed to open file".to_owned(), "reading config from /etc/x".to_owned()]);
}

#[test]
fn err_ctx_passes_ok_through() {
    let r: Result<u32, Error> = ErrCtx("outer".to_owned()).e(|| Ok(7));
    assert_eq!(r.unwrap(), 7);
}

#[test]
fn err_ctx_wraps_errors() {
    let r: Result<u32, Error> = ErrCtx("outer".to_owned()).e(|| Err(Error::msg("inner")));
    let e = r.unwrap_err();
    assert_eq!(e.chain, vec!["inner".to_owned(), "outer".to_owned()]);
}
