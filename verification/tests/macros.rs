//! Early-return error flows: the guard and fail forms written out by hand.

use evitable::runtime::WrappedError;

#[derive(Debug, PartialEq)]
enum Context {
    Io,
}

#[test]
fn ensure() {
    fn fail() -> Result<(), WrappedError<Context>> {
        // ensure!(false, Context::Io), written out by hand
        if !(false) {
            return Err(WrappedError::from_context(Context::Io));
        }
        Ok(())
    }

    let ret = fail();
    assert!(ret.is_err());
}

#[test]
fn fail() {
    fn fail() -> Result<(), WrappedError<Context>> {
        // fail!(Context::Io), written out by hand
        return Err(WrappedError::from_context(Context::Io));
    }

    let ret = fail();
    assert!(ret.is_err());
}
