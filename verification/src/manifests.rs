//! The files of the resource definitions: their names, and the
//! kustomization that lists them.

use crate::fields::{cut, join, split, split_ranges, substring, texts};
use crate::text::chars_of;
use vstd::prelude::*;
use vstd::string::*;

verus! {

/// The directory of the resource definitions.
pub const CRD_KUSTOMIZE_DIR: &'static str = "config/crds";

/// The name of the kustomization file.
pub const KUSTOMIZATION_FILE: &'static str = "kustomization.yaml";

/// What every kustomization starts with.
pub const KUSTOMIZATION_HEADER: &'static str =
    "---\napiVersion: kustomize.config.k8s.io/v1beta1\nkind: Kustomization\nresources:";

/// The lowercase form of a text, as `str::to_lowercase` gives it.
pub uninterp spec fn lowercase(s: Seq<char>) -> Seq<char>;

/// Calls `str::to_lowercase`, which returns the lowercase equivalent of the
/// text by the Unicode rules for lowercasing. What it returns depends on
/// nothing but the text, so the contract names it.
#[verifier::external_body]
fn to_lowercase(s: &str) -> (r: String)
    ensures
        r@ == lowercase(s@),
{
    s.to_lowercase()
}

/// The file name for a lowercase resource name: every `.` becomes `_`,
/// and `.yaml` is put behind.
pub open spec fn yaml_name(lowered: Seq<char>) -> Seq<char> {
    join(split(lowered, '.'), "_"@) + ".yaml"@
}

/// The file name for the lowercase resource name `lowered`.
pub fn yaml_file_name(lowered: &str) -> (r: String)
    ensures
        r@ == yaml_name(lowered@),
{
    let text = chars_of(lowered);
    let ranges = split_ranges(&text, '.');
    let ghost parts = split(lowered@, '.');
    assert(cut(text@, ranges@).len() == ranges.len());
    let mut out = String::new();
    let mut i: usize = 0;
    assert(parts.subrange(0, 0) =~= Seq::<Seq<char>>::empty());
    assert(out@ =~= join(parts.subrange(0, 0), "_"@));
    while i < ranges.len()
        invariant
            i <= ranges.len(),
            text@ == lowered@,
            cut(text@, ranges@) == parts,
            forall|k: int| 0 <= k < ranges.len() ==> (#[trigger] ranges[k]).0 <= ranges[k].1
                <= text.len(),
            out@ == join(parts.subrange(0, i as int), "_"@),
        decreases ranges.len() - i,
    {
        let (from, to) = ranges[i];
        let ghost before = parts.subrange(0, i as int);
        let ghost after = parts.subrange(0, i + 1);
        assert(after.drop_last() =~= before);
        assert(after.last() == cut(text@, ranges@)[i as int]);
        if i > 0 {
            out.append("_");
        }
        let part = substring(lowered, from, to);
        out.append(part.as_str());
        assert(out@ =~= join(after, "_"@));
        i += 1;
    }
    assert(parts.subrange(0, parts.len() as int) =~= parts);
    out.append(".yaml");
    out
}

/// The file name for the resource definition `crd_name`: its lowercase
/// form with every `.` turned into `_`, and `.yaml` behind.
pub fn crd_file_name(crd_name: &str) -> (r: String)
    ensures
        r@ == yaml_name(lowercase(crd_name@)),
{
    let lowered = to_lowercase(crd_name);
    yaml_file_name(lowered.as_str())
}

/// The path of `file_name` in the directory of the resource definitions.
pub open spec fn path_of(file_name: Seq<char>) -> Seq<char> {
    CRD_KUSTOMIZE_DIR@ + "/"@ + file_name
}

/// The path of `file_name` in the directory of the resource definitions.
pub fn crd_file_path(file_name: &str) -> (r: String)
    ensures
        r@ == path_of(file_name@),
{
    let mut out = String::from_str(CRD_KUSTOMIZE_DIR);
    out.append("/");
    out.append(file_name);
    assert(out@ =~= path_of(file_name@));
    out
}

/// One line `- name` for each of `names`, each after a line break.
pub open spec fn resource_lines(names: Seq<Seq<char>>) -> Seq<char>
    decreases names.len(),
{
    if names.len() == 0 {
        Seq::empty()
    } else {
        resource_lines(names.drop_last()) + "\n- "@ + names.last()
    }
}

/// The kustomization that lists the files `names` as its resources.
pub open spec fn kustomization(names: Seq<Seq<char>>) -> Seq<char> {
    KUSTOMIZATION_HEADER@ + resource_lines(names) + "\n"@
}

/// The contents of the kustomization file that lists `crd_file_names`.
pub fn kustomization_contents(crd_file_names: &Vec<String>) -> (r: String)
    ensures
        r@ == kustomization(texts(crd_file_names@)),
{
    let ghost names = texts(crd_file_names@);
    let mut out = String::from_str(KUSTOMIZATION_HEADER);
    let mut i: usize = 0;
    assert(names.subrange(0, 0) =~= Seq::<Seq<char>>::empty());
    assert(out@ =~= KUSTOMIZATION_HEADER@ + resource_lines(names.subrange(0, 0)));
    while i < crd_file_names.len()
        invariant
            i <= crd_file_names.len(),
            names == texts(crd_file_names@),
            out@ == KUSTOMIZATION_HEADER@ + resource_lines(names.subrange(0, i as int)),
        decreases crd_file_names.len() - i,
    {
        let ghost before = names.subrange(0, i as int);
        let ghost after = names.subrange(0, i + 1);
        assert(after.drop_last() =~= before);
        assert(after.last() == crd_file_names[i as int]@);
        out.append("\n- ");
        out.append(crd_file_names[i].as_str());
        assert(out@ =~= KUSTOMIZATION_HEADER@ + resource_lines(after));
        i += 1;
    }
    assert(names.subrange(0, names.len() as int) =~= names);
    out.append("\n");
    out
}

/// Whether a file that holds `current` needs no writing to hold `wanted`.
pub fn up_to_date(current: &str, wanted: &str) -> (r: bool)
    ensures
        r == (current@ == wanted@),
{
    String::from_str(current) == String::from_str(wanted)
}

} // verus!
