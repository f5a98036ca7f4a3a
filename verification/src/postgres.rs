//! The SSL mode of a PostgreSQL connection, as a Python caller names it.

use vstd::prelude::*;

verus! {

/// How a PostgreSQL connection uses SSL.
#[derive(Clone, Copy, Debug, PartialEq, Eq, Structural)]
pub enum SslMode {
    Disable,
    Prefer,
    Require,
}

/// A mode name other than `disable`, `prefer` or `require`.
#[derive(Clone, Copy, Debug, PartialEq, Eq, Structural)]
pub struct InvalidSslMode;

/// The SSL mode named `mode`: `disable`, `prefer` or `require`, exactly.
pub fn parse_ssl_mode(mode: &str) -> (r: Result<SslMode, InvalidSslMode>)
    ensures
        mode@ == "disable"@ ==> r == Ok::<SslMode, InvalidSslMode>(SslMode::Disable),
        mode@ == "prefer"@ ==> r == Ok::<SslMode, InvalidSslMode>(SslMode::Prefer),
        mode@ == "require"@ ==> r == Ok::<SslMode, InvalidSslMode>(SslMode::Require),
        mode@ != "disable"@ && mode@ != "prefer"@ && mode@ != "require"@ ==> r == Err::<
            SslMode,
            InvalidSslMode,
        >(InvalidSslMode),
{
    proof {
        reveal_strlit("disable");
        reveal_strlit("prefer");
        reveal_strlit("require");
        assert("prefer"@.len() != "disable"@.len());
        assert("require"@.len() != "prefer"@.len());
        assert("require"@[0] != "disable"@[0]);
    }
    if crate::keyed::str_eq(mode, "disable") {
        Ok(SslMode::Disable)
    } else if crate::keyed::str_eq(mode, "prefer") {
        Ok(SslMode::Prefer)
    } else if crate::keyed::str_eq(mode, "require") {
        Ok(SslMode::Require)
    } else {
        Err(InvalidSslMode)
    }
}

} // verus!
