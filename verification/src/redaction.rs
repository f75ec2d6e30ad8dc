//! Redaction-safe debug renderings: the type's name and field names are shown,
//! every value is replaced by the quoted marker `"[redacted]"`.

use vstd::prelude::*;

verus! {

/// The quoted marker that stands for every value.
pub open spec fn marker_text() -> Seq<char> {
    "\"[redacted]\""@
}

/// `name("[redacted]")`: a tuple-style rendering with one hidden field.
pub open spec fn redacted_tuple_text(name: Seq<char>) -> Seq<char> {
    name + "("@ + marker_text() + ")"@
}

/// `f1: "[redacted]", f2: "[redacted]", ...` for the first `n` field names.
pub open spec fn redacted_fields_text(fields: Seq<Seq<char>>, n: int) -> Seq<char>
    decreases n,
{
    if n <= 0 {
        Seq::empty()
    } else if n == 1 {
        fields[0] + ": "@ + marker_text()
    } else {
        redacted_fields_text(fields, n - 1) + ", "@ + fields[n - 1] + ": "@ + marker_text()
    }
}

/// `name { f1: "[redacted]", ... }`: a struct-style rendering whose every
/// field value is hidden.
pub open spec fn redacted_struct_text(name: Seq<char>, fields: Seq<Seq<char>>) -> Seq<char> {
    name + " { "@ + redacted_fields_text(fields, fields.len() as int) + " }"@
}

/// The views of a list of field names.
pub open spec fn names_view(fields: Seq<&str>) -> Seq<Seq<char>> {
    fields.map_values(|f: &str| f@)
}

/// Render `name("[redacted]")`.
pub fn redacted_tuple(name: &str) -> (r: String)
    ensures
        r@ == redacted_tuple_text(name@),
{
    let mut out = String::from_str(name);
    out.append("(");
    out.append("\"[redacted]\"");
    out.append(")");
    out
}

/// Render `name { f1: "[redacted]", ... }` for the given non-empty field list.
pub fn redacted_struct(name: &str, fields: &[&str]) -> (r: String)
    requires
        fields@.len() > 0,
    ensures
        r@ == redacted_struct_text(name@, names_view(fields@)),
{
    let ghost names = names_view(fields@);
    let mut out = String::from_str(name);
    out.append(" { ");
    let ghost start = out@;
    let n = fields.len();
    let mut i: usize = 0;
    while i < n
        invariant
            n == fields@.len(),
            names == names_view(fields@),
            i <= n,
            out@ == start + redacted_fields_text(names, i as int),
        decreases n - i,
    {
        if i > 0 {
            out.append(", ");
        }
        out.append(fields[i]);
        out.append(": ");
        out.append("\"[redacted]\"");
        proof {
            assert(names[i as int] == fields@[i as int]@);
        }
        i += 1;
    }
    out.append(" }");
    out
}

} // verus!
