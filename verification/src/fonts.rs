//! The diagnostic font check: the fixed list of required font families and
//! one host-catalog query per entry.

use vstd::prelude::*;

verus! {

/// One required font family together with whether the host has it.
#[derive(Clone, Copy, Debug)]
pub struct FontStatus {
    pub name: &'static str,
    pub installed: bool,
}

/// The font families the application expects on the host.
pub open spec fn spec_required_fonts() -> Seq<Seq<char>> {
    seq!["C059"@, "NDot"@, "Nothing Font (5x7)"@]
}

/// No NUL character anywhere in the name: what the host catalog's C
/// interface can take.
pub open spec fn no_nul(s: Seq<char>) -> bool {
    forall|i: int| 0 <= i < s.len() ==> s[i] != '\0'
}

/// The required font families, in their fixed order.
pub fn required_fonts() -> (r: Vec<&'static str>)
    ensures
        r@.len() == spec_required_fonts().len(),
        forall|i: int| 0 <= i < r@.len() ==> r@[i]@ == spec_required_fonts()[i],
{
    let mut v: Vec<&'static str> = Vec::new();
    v.push("C059");
    v.push("NDot");
    v.push("Nothing Font (5x7)");
    v
}

/// font_kit's handle on the host's font catalog, opaque here: only the
/// trusted lookups below touch it.
#[verifier::external_type_specification]
#[verifier::external_body]
pub struct ExSystemSource(font_kit::source::SystemSource);

/// Relies on font_kit's `SystemSource::new`: opens the host's font
/// catalog. Nothing is promised of the handle.
#[verifier::external_body]
fn new_source() -> font_kit::source::SystemSource {
    font_kit::source::SystemSource::new()
}

/// Relies on font_kit's `SystemSource::select_family_by_name`: looks the
/// name up in the host's font catalog. Which families the host has depends
/// on the machine, so nothing is promised of the result. The name must
/// hold no NUL character: the catalog's backend turns it into a C string
/// and panics otherwise.
#[verifier::external_body]
fn family_installed(source: &font_kit::source::SystemSource, name: &str) -> bool
    requires
        no_nul(name@),
{
    source.select_family_by_name(name).is_ok()
}

/// Queries the host's font catalog once for each required family and
/// reports every entry, whether installed or not.
pub fn check_fonts() -> (r: Vec<FontStatus>)
    ensures
        r@.len() == spec_required_fonts().len(),
        forall|i: int| 0 <= i < r@.len() ==> r@[i].name@ == spec_required_fonts()[i],
{
    let names = required_fonts();
    proof {
        reveal_strlit("C059");
        reveal_strlit("NDot");
        reveal_strlit("Nothing Font (5x7)");
        assert(no_nul("C059"@));
        assert(no_nul("NDot"@));
        assert(no_nul("Nothing Font (5x7)"@));
    }
    let source = new_source();
    let mut out: Vec<FontStatus> = Vec::new();
    let mut i: usize = 0;
    while i < names.len()
        invariant
            i <= names@.len(),
            out@.len() == i,
            names@.len() == spec_required_fonts().len(),
            forall|j: int| 0 <= j < names@.len() ==> names@[j]@ == spec_required_fonts()[j],
            forall|j: int| 0 <= j < names@.len() ==> no_nul(names@[j]@),
            forall|j: int| 0 <= j < i ==> out@[j].name@ == spec_required_fonts()[j],
        decreases names@.len() - i,
    {
        let name = names[i];
        let installed = family_installed(&source, name);
        out.push(FontStatus { name, installed });
        i = i + 1;
    }
    out
}

} // verus!
