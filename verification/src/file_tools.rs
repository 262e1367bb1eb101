//! Small helpers around the output files: wrapping a filesystem error and
//! computing the checkout path for a selected pull request.

use vstd::prelude::*;

use crate::model::Config;
use crate::model::NestedError;
use crate::model::PursError;
use crate::model::R;
use crate::model::ValidatedPullRequest;
use crate::strings::dec_str;
use crate::strings::u64_to_dec_string;

verus! {

/// Wraps a filesystem error message into the library's error type.
pub fn to_file_error(error_message: &str, error: NestedError) -> (r: PursError)
    ensures
        r matches PursError::FileError(m, e) && m@ == error_message@ && e == error,
{
    PursError::FileError(error_message.to_owned(), error)
}

/// The checkout path of a pull request:
/// `{working_dir}/{repo}/{branch}/{pr_number}/{head_sha}`.
pub open spec fn extract_path_spec(
    working_dir: Seq<char>,
    repo_name: Seq<char>,
    branch_name: Seq<char>,
    pr_number: u64,
    head_sha: Seq<char>,
) -> Seq<char> {
    working_dir + "/"@ + repo_name + "/"@ + branch_name + "/"@ + dec_str(pr_number as nat) + "/"@
        + head_sha
}

/// Computes where the selected pull request is checked out; always succeeds.
pub fn get_extract_path(config: &Config, pull: &ValidatedPullRequest) -> (r: R<String>)
    ensures
        r matches Ok(p) && p@ == extract_path_spec(
            config.working_dir@,
            pull@.repo_name,
            pull@.branch_name,
            pull@.pr_number,
            pull@.head_sha,
        ),
{
    let mut path = config.working_dir.0.clone();
    path.append("/");
    path.append(pull.repo_name.0.as_str());
    path.append("/");
    path.append(pull.branch_name.0.as_str());
    path.append("/");
    let num = u64_to_dec_string(pull.pr_number);
    path.append(num.as_str());
    path.append("/");
    path.append(pull.head_sha.as_str());
    Ok(path)
}

} // verus!
