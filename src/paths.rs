//! Where the application keeps its local data.
use vstd::prelude::*;
use vstd::string::StringExecFns;

verus! {

/// Relies on `directories::ProjectDirs::from` and
/// `ProjectDirs::data_local_dir`. The answer depends on the platform and
/// the environment, so nothing is stated of it.
#[verifier::external_body]
fn project_data_local_dir(qualifier: &str, organization: &str, application: &str) -> (r: Option<String>) {
    directories::ProjectDirs::from(qualifier, organization, application).map(
        |d| d.data_local_dir().to_string_lossy().into_owned(),
    )
}

/// The data directory: the platform's directory for the project where
/// there is one, `./.data` otherwise.
pub fn data_dir_or_default(project_dir: Option<String>) -> (r: String)
    ensures
        match project_dir {
            Some(d) => r@ == d@,
            None => r@ == "./.data"@,
        },
{
    match project_dir {
        Some(d) => d,
        None => String::from_str("./.data"),
    }
}

/// The local data directory of the application.
pub fn get_data_dir() -> (r: String) {
    data_dir_or_default(project_data_local_dir("com", "vanguard-rs", "vanguard-rs"))
}

} // verus!
