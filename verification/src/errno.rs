//! Error numbers: the ones the backend returns itself, and the conversion of
//! the monitor's errors to Linux error numbers.
use vstd::prelude::*;

use crate::text::{i32_text, signed_decimal};
use vstd::string::StringExecFns;

verus! {

/// Out of memory.
pub const ENOMEM: i32 = 12;

/// Already exists.
pub const EEXIST: i32 = 17;

/// Invalid argument.
pub const EINVAL: i32 = 22;

/// No space left.
pub const ENOSPC: i32 = 28;

/// Operation not supported.
pub const EOPNOTSUPP: i32 = 95;

/// The Linux error numbers that have a name: every number from one to 133 but
/// for two gaps.
pub open spec fn is_linux_errno(errno: int) -> bool {
    1 <= errno <= 133 && errno != 41 && errno != 58
}

/// How many error kinds the monitor has of its own, numbered from one.
pub const AX_ERROR_KINDS: i32 = 43;

/// The codes that an error of the monitor can have: the number of one of its
/// own kinds, or the negated number of a Linux error.
pub open spec fn is_ax_error_code(code: int) -> bool {
    1 <= code <= AX_ERROR_KINDS || is_linux_errno(-code)
}

/// The Linux error number that `ax_errno` gives for the code of an error of the
/// monitor.
pub uninterp spec fn linux_errno_of(code: i32) -> i32;

/// `<ax_errno::LinuxError as From<ax_errno::AxError>>::from` and
/// `LinuxError::code`, on the error with the given code. `AxError::try_from`
/// takes exactly the codes that an error can have. An error that was made from a
/// Linux error gives back that error's number; one of the monitor's own kinds
/// gives a number that is fixed for the kind. Either is the number of a named
/// Linux error.
#[verifier::external_body]
fn linux_errno_from_code(code: i32) -> (errno: i32)
    requires
        is_ax_error_code(code as int),
    ensures
        errno == linux_errno_of(code),
        code < 0 ==> errno == -code,
        is_linux_errno(errno as int),
{
    match ax_errno::AxError::try_from(code) {
        Ok(err) => ax_errno::LinuxError::from(err).code(),
        Err(code) => code,
    }
}

/// The name that `ax_errno` prints for a Linux error number, where it has one.
pub uninterp spec fn linux_error_name_of(errno: i32) -> Seq<char>;

/// `ax_errno::LinuxError::try_from` and the `Debug` text of the error: there is
/// one exactly for the named Linux error numbers, and the text depends on the
/// number alone.
#[verifier::external_body]
fn linux_error_name(errno: i32) -> (name: Option<String>)
    ensures
        name is Some <==> is_linux_errno(errno as int),
        name matches Some(text) ==> text@ == linux_error_name_of(errno),
{
    match ax_errno::LinuxError::try_from(errno) {
        Ok(linux_err) => Some(format!("{linux_err:?}")),
        Err(_) => None,
    }
}

/// The name that `ax_errno` prints for the code of an error of the monitor.
pub uninterp spec fn ax_error_name_of(code: i32) -> Seq<char>;

/// `ax_errno::AxError::try_from` and the `Debug` text of the error: there is one
/// exactly for the codes that an error can have, and the text depends on the
/// code alone. `try_from` negates the code, so the one value without a negation
/// is left out.
#[verifier::external_body]
fn ax_error_name(code: i32) -> (name: Option<String>)
    requires
        code != i32::MIN,
    ensures
        name is Some <==> is_ax_error_code(code as int),
        name matches Some(text) ==> text@ == ax_error_name_of(code),
{
    match ax_errno::AxError::try_from(code) {
        Ok(ax_err) => Some(format!("{ax_err:?}")),
        Err(_) => None,
    }
}

/// Turns a result of the monitor, with the code of its error, into one with a
/// negative Linux error number. A failed call never turns into success.
pub fn ax_result_to_errno<T>(result: Result<T, i32>) -> (r: Result<T, i32>)
    requires
        result matches Err(code) ==> is_ax_error_code(code as int),
    ensures
        result matches Ok(value) ==> r == Ok::<T, i32>(value),
        result matches Err(code) ==> {
            &&& r == Err::<T, i32>((-linux_errno_of(code)) as i32)
            &&& is_linux_errno(linux_errno_of(code) as int)
            &&& code < 0 ==> r == Err::<T, i32>(code)
        },
{
    match result {
        Ok(value) => Ok(value),
        Err(code) => {
            let linux_err: i32 = linux_errno_from_code(code);
            Err(-linux_err)
        },
    }
}

/// The text by which logs name an error: the Linux error with that negated
/// number, else the monitor's error with that code, else the number itself.
pub open spec fn errno_label(err: i32) -> Seq<char> {
    if is_linux_errno(-err) {
        linux_error_name_of((-err) as i32)
    } else if is_ax_error_code(err as int) {
        ax_error_name_of(err)
    } else {
        "raw_errno="@ + signed_decimal(err as int)
    }
}

/// The label of an error number in a log line.
pub fn bridge_errno_label(err: i32) -> (label: String)
    requires
        err != i32::MIN,
    ensures
        label@ == errno_label(err),
{
    let errno: i32 = -err;
    match linux_error_name(errno) {
        Some(name) => name,
        None => match ax_error_name(err) {
            Some(name) => name,
            None => {
                let mut label = String::from_str("raw_errno=");
                label.append(i32_text(err).as_str());
                label
            },
        },
    }
}

} // verus!
