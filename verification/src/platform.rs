use vstd::prelude::*;
use vstd::string::StringExecFns;

verus! {

/// The host operating systems the supervisor distinguishes when it picks the
/// auxiliary tool's binary variant. Every other host falls under `Unknown`.
#[derive(Clone, Copy, PartialEq, Eq, Structural, Debug)]
pub enum Platform {
    Linux,
    Windows,
    Unknown,
}

/// The target-triple identifier chosen for a platform. `Unknown` keeps a
/// sentinel value so the candidate search can still proceed (and fail).
pub open spec fn triple_model(p: Platform) -> Seq<char> {
    match p {
        Platform::Linux => "x86_64-unknown-linux-gnu"@,
        Platform::Windows => "x86_64-pc-windows-msvc"@,
        Platform::Unknown => "unknown"@,
    }
}

/// Maps the detected platform to its fixed target-triple string.
pub fn triple_string(p: Platform) -> (s: String)
    ensures
        s@ == triple_model(p),
{
    match p {
        Platform::Linux => String::from_str("x86_64-unknown-linux-gnu"),
        Platform::Windows => String::from_str("x86_64-pc-windows-msvc"),
        Platform::Unknown => String::from_str("unknown"),
    }
}

} // verus!
