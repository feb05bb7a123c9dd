use vstd::prelude::*;

use crate::error::ShimError;

verus! {

/// Whether a picker request asks for multiple selections: only an explicit
/// `true` does; an absent flag means a single selection.
pub open spec fn spec_multiple_requested(multiple: Option<bool>) -> bool {
    multiple == Some(true)
}

/// Read the multiple-selection flag of a picker request.
pub fn multiple_requested(multiple: Option<bool>) -> (b: bool)
    ensures
        b == spec_multiple_requested(multiple),
{
    match multiple {
        Some(b) => b,
        None => false,
    }
}

/// The response of a multi-selection picker for each outcome of the dialog:
/// the chosen paths are returned as they are, and cancellation is a
/// successful, absent response — never an error.
pub open spec fn spec_multi_picker_response(
    picked: Option<Vec<String>>,
    r: Result<Option<Vec<String>>, ShimError>,
) -> bool {
    match picked {
        Some(paths) => r == Ok::<Option<Vec<String>>, ShimError>(Some(paths)),
        None => r == Ok::<Option<Vec<String>>, ShimError>(None::<Vec<String>>),
    }
}

/// Translate the outcome of a multi-selection picker dialog into the
/// command's response.
pub fn multi_picker_response(picked: Option<Vec<String>>) -> (r: Result<
    Option<Vec<String>>,
    ShimError,
>)
    ensures
        spec_multi_picker_response(picked, r),
{
    match picked {
        Some(paths) => Ok(Some(paths)),
        None => Ok(None),
    }
}

/// The response of a single-selection picker for each outcome of the dialog:
/// a chosen path is returned as the sole element of the path list, and
/// cancellation is a successful, absent response — never an error.
pub open spec fn spec_single_picker_response(
    picked: Option<String>,
    r: Result<Option<Vec<String>>, ShimError>,
) -> bool {
    match picked {
        Some(p) => r matches Ok(sel) && sel matches Some(paths) && paths@ == seq![p],
        None => r == Ok::<Option<Vec<String>>, ShimError>(None::<Vec<String>>),
    }
}

/// Translate the outcome of a single-selection picker dialog into the
/// command's response, wrapping a chosen path in a list of one.
pub fn single_picker_response(picked: Option<String>) -> (r: Result<Option<Vec<String>>, ShimError>)
    ensures
        spec_single_picker_response(picked, r),
{
    match picked {
        Some(p) => {
            let mut paths: Vec<String> = Vec::new();
            paths.push(p);
            assert(paths@ =~= seq![p]);
            Ok(Some(paths))
        },
        None => Ok(None),
    }
}

/// The response of a save-path picker for each outcome of the dialog: the
/// chosen path, or a successful, absent response on cancellation — never an
/// error.
pub open spec fn spec_save_picker_response(
    picked: Option<String>,
    r: Result<Option<String>, ShimError>,
) -> bool {
    r == Ok::<Option<String>, ShimError>(picked)
}

/// Translate the outcome of a save-path picker dialog into the command's
/// response.
pub fn save_picker_response(picked: Option<String>) -> (r: Result<Option<String>, ShimError>)
    ensures
        spec_save_picker_response(picked, r),
{
    Ok(picked)
}

/// Cancelling any picker dialog yields an absent result, and never an error:
/// every response to a cancelled dialog is success with nothing selected.
pub proof fn lemma_cancel_is_absent(
    r_multi: Result<Option<Vec<String>>, ShimError>,
    r_single: Result<Option<Vec<String>>, ShimError>,
    r_save: Result<Option<String>, ShimError>,
)
    requires
        spec_multi_picker_response(None::<Vec<String>>, r_multi),
        spec_single_picker_response(None::<String>, r_single),
        spec_save_picker_response(None::<String>, r_save),
    ensures
        r_multi == Ok::<Option<Vec<String>>, ShimError>(None::<Vec<String>>),
        r_single == Ok::<Option<Vec<String>>, ShimError>(None::<Vec<String>>),
        r_save == Ok::<Option<String>, ShimError>(None::<String>),
{
}

} // verus!
