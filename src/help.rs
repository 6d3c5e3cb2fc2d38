use vstd::prelude::*;
use vstd::string::*;

verus! {

pub open spec fn usage_text() -> Seq<char> {
    "Usage:\n  Run 'lnkr' in a directory containing a 'lnkr.yaml'"@
}

/// The help text: the program's name, version and description, then usage.
pub fn help_text(name: &str, version: &str, description: &str) -> (r: String)
    ensures
        r@ == name@ + " "@ + version@ + " - "@ + description@ + "\n\n"@ + usage_text(),
{
    let mut r = String::from_str(name);
    r.append(" ");
    r.append(version);
    r.append(" - ");
    r.append(description);
    r.append("\n\n");
    r.append("Usage:\n  Run 'lnkr' in a directory containing a 'lnkr.yaml'");
    r
}

} // verus!
