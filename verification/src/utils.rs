//! Detection of the window system the recorder runs under.
use vstd::prelude::*;

verus! {

/// The window systems the recorder can tell apart.
#[derive(Debug, PartialEq, Eq, Structural, Clone, Copy)]
pub enum ws {
    X11,
    Wayland,
}

/// Why an environment variable could not be read, holding the same
/// information as the standard library's error: the variable is absent, or
/// it is present with these raw bytes, which are not valid Unicode.
#[derive(Debug)]
pub enum VarError {
    NotPresent,
    NotUnicode(Vec<u8>),
}

/// What `detect_ws` returns for the given readings of `WAYLAND_DISPLAY`
/// and `DISPLAY`.
pub open spec fn spec_detect_ws(
    wayland: Result<String, VarError>,
    x11: Result<String, VarError>,
) -> Result<ws, VarError> {
    match wayland {
        Ok(_) => Ok(ws::Wayland),
        Err(VarError::NotPresent) => match x11 {
            Ok(_) => Ok(ws::X11),
            Err(e) => Err(e),
        },
        Err(e) => Err(e),
    }
}

/// Decides the window system from the values of the environment variables
/// `WAYLAND_DISPLAY` (`wayland`) and `DISPLAY` (`x11`).
///
/// Wayland wins whenever `WAYLAND_DISPLAY` is set, whatever its value; X11 is
/// chosen only when `WAYLAND_DISPLAY` is absent and `DISPLAY` is set. An
/// unreadable `WAYLAND_DISPLAY` is reported as it is; when it is absent, the
/// error of reading `DISPLAY` is reported.
pub fn detect_ws(wayland: Result<String, VarError>, x11: Result<String, VarError>) -> (res: Result<
    ws,
    VarError,
>)
    ensures
        res == spec_detect_ws(wayland, x11),
{
    match wayland {
        Ok(_v) => Ok(ws::Wayland),
        Err(e) => {
            match e {
                VarError::NotPresent => {
                    match x11 {
                        Ok(_v) => Ok(ws::X11),
                        Err(e2) => Err(e2),
                    }
                },
                VarError::NotUnicode(bytes) => Err(VarError::NotUnicode(bytes)),
            }
        },
    }
}

/// A set `WAYLAND_DISPLAY`, whatever its value, means Wayland, whatever
/// `DISPLAY` holds or whether it is readable at all.
pub proof fn law_wayland_display_set_means_wayland(
    wayland: Result<String, VarError>,
    x11: Result<String, VarError>,
)
    requires
        wayland is Ok,
    ensures
        spec_detect_ws(wayland, x11) is Ok,
        spec_detect_ws(wayland, x11)->Ok_0 == ws::Wayland,
{
}

/// X11 is detected exactly when `WAYLAND_DISPLAY` is absent and `DISPLAY`
/// is readable, and Wayland exactly when `WAYLAND_DISPLAY` is readable.
pub proof fn law_detected_system(wayland: Result<String, VarError>, x11: Result<String, VarError>)
    ensures
        (spec_detect_ws(wayland, x11) matches Ok(w) && w == ws::Wayland) <==> wayland is Ok,
        (spec_detect_ws(wayland, x11) matches Ok(w) && w == ws::X11) <==> (wayland matches Err(
            VarError::NotPresent,
        ) && x11 is Ok),
{
}

/// Detection fails only when neither variable can be used, and then reports
/// `WAYLAND_DISPLAY`'s problem unless that variable is merely absent, in
/// which case it reports `DISPLAY`'s.
pub proof fn law_detection_errors(wayland: Result<String, VarError>, x11: Result<String, VarError>)
    ensures
        spec_detect_ws(wayland, x11) is Err <==> (wayland is Err && (!(wayland matches Err(
            VarError::NotPresent,
        )) || x11 is Err)),
        wayland matches Err(VarError::NotUnicode(b)) ==> spec_detect_ws(wayland, x11) == Err::<
            ws,
            VarError,
        >(VarError::NotUnicode(b)),
        (wayland matches Err(VarError::NotPresent) && x11 is Err) ==> spec_detect_ws(wayland, x11)
            == Err::<ws, VarError>(x11->Err_0),
{
}

} // verus!
