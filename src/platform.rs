//! Names of the platform the agent runs on, as the server expects them.
use vstd::prelude::*;

use crate::text::{push_char, same_text};

verus! {

/// The server's name for a CPU architecture: `x86_64` is `x64`, `aarch64` is
/// `arm64`, any other keeps its name.
pub open spec fn spec_arch_label(arch: Seq<char>) -> Seq<char> {
    if arch == "x86_64"@ {
        "x64"@
    } else if arch == "aarch64"@ {
        "arm64"@
    } else {
        arch
    }
}

/// The server's name for a CPU architecture.
pub fn arch_label(arch: &str) -> (r: String)
    ensures
        r@ == spec_arch_label(arch@),
{
    if same_text(arch, "x86_64") {
        String::from_str("x64")
    } else if same_text(arch, "aarch64") {
        String::from_str("arm64")
    } else {
        String::from_str(arch)
    }
}

/// The platform label `<os>-<arch>` sent when asking for the editor build.
pub fn get_os_arch(os: &str, arch: &str) -> (r: String)
    ensures
        r@ == os@ + seq!['-'] + spec_arch_label(arch@),
{
    let mut out = String::from_str(os);
    push_char(&mut out, '-');
    let label = arch_label(arch);
    out.append(label.as_str());
    assert(out@ =~= os@ + seq!['-'] + spec_arch_label(arch@));
    out
}

} // verus!
