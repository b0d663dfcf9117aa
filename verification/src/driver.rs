//! The per-file validation driver: runs every validator on a scene in a fixed
//! category order and aggregates their diagnostics into one [`Report`], plus
//! the short-circuit report for files not in the binary format and the
//! file-name predicates of the file loop.

use vstd::prelude::*;

use crate::checks::bounding_box_size;
use crate::checks::correct_coordinate_axis;
use crate::checks::meshes_have_normals;
use crate::checks::no_namespaces;
use crate::checks::no_quads;
use crate::checks::no_scale_compensation;
use crate::checks::root_has_identity_transform;
use crate::checks::units_are_in_meters;
use crate::geometry::GeometryError;
use crate::report::{CategoryReport, Report};
use crate::scene::{MeshExtent, SceneDoc};
use crate::strutil::{contains_seq, ends_with_seq, str_contains, str_ends_with};

verus! {

/// The report for a file that is not in the binary format: the single gate
/// diagnostic, and nothing else, since no scene checks run on such a file.
pub fn ascii_format_report() -> (r: Report)
    ensures
        r.wf(),
        r.entries@.len() == 1,
        r.entries@[0].category@ == "ASCII Format"@,
        r.entries@[0].messages.deep_view() == seq!["File is not saved in FBX binary format."@],
        r.spec_total() == 1,
{
    let mut messages: Vec<String> = Vec::new();
    messages.push(String::from_str("File is not saved in FBX binary format."));
    let mut r = Report::new();
    proof {
        assert(messages.deep_view() =~= seq!["File is not saved in FBX binary format."@]);
        assert(messages@.len() == 1);
    }
    r.add_category(String::from_str("ASCII Format"), messages);
    proof {
        assert(r.entries@.drop_last() =~= Seq::<CategoryReport>::empty());
        assert(crate::report::spec_total_entries(r.entries@.drop_last()) == 0);
        assert(r.entries@.last().messages@.len() == 1);
    }
    r
}

/// Runs every applicable validator on the scene, in the fixed category order,
/// and collects their diagnostics.  `extents` holds one entry per mesh in
/// document order, as the adapter computed them from the reduced bounds.  The
/// triangulation check runs only when `check_quads` is set; a mesh with a
/// malformed polygon index array fails the whole file with a fatal error.
pub fn evaluate_scene(doc: &SceneDoc, extents: &Vec<MeshExtent>, check_quads: bool) -> (r:
    Result<Report, GeometryError>)
    ensures
        match r {
            Result::Ok(rep) => {
                &&& rep.wf()
                &&& rep.entries@.len() == if check_quads {
                    8int
                } else {
                    7int
                }
                &&& rep.entries@[0].category@ == "Units not in meters"@
                &&& rep.entries@[0].messages.deep_view()
                    == units_are_in_meters::spec_diagnostics(*doc)
                &&& rep.entries@[1].category@ == "Incorrect axis"@
                &&& rep.entries@[1].messages.deep_view()
                    == correct_coordinate_axis::spec_diagnostics(*doc)
                &&& rep.entries@[2].category@ == "Root does not have zero transform"@
                &&& rep.entries@[2].messages.deep_view()
                    == root_has_identity_transform::spec_diagnostics(*doc)
                &&& rep.entries@[3].category@ == "Mesh size is wrong"@
                &&& rep.entries@[3].messages.deep_view() == match bounding_box_size::spec_scan(
                    doc.objects@,
                    extents@,
                ) {
                    Option::Some(msg) => seq![msg],
                    Option::None => Seq::<Seq<char>>::empty(),
                }
                &&& rep.entries@[4].category@ == "No normals"@
                &&& rep.entries@[4].messages.deep_view()
                    == meshes_have_normals::spec_diagnostics(doc.objects@)
                &&& rep.entries@[5].category@ == "Scale compensation"@
                &&& rep.entries@[5].messages.deep_view()
                    == no_scale_compensation::spec_diagnostics(doc.objects@)
                &&& rep.entries@[6].category@ == "Namespaces"@
                &&& rep.entries@[6].messages.deep_view() == no_namespaces::spec_diagnostics(
                    doc.objects@,
                )
                &&& check_quads ==> {
                    &&& rep.entries@[7].category@ == "Contains quads"@
                    &&& no_quads::spec_scan(doc.objects@) matches Option::Some(msgs)
                        && rep.entries@[7].messages.deep_view() == msgs
                }
            },
            Result::Err(e) => {
                &&& check_quads
                &&& no_quads::spec_scan(doc.objects@) is None
                &&& e matches GeometryError::IncompletePolygon { .. }
            },
        },
{
    let mut rep = Report::new();
    proof {
        reveal_strlit("Units not in meters");
        reveal_strlit("Incorrect axis");
        reveal_strlit("Root does not have zero transform");
        reveal_strlit("Mesh size is wrong");
        reveal_strlit("No normals");
        reveal_strlit("Contains quads");
        reveal_strlit("Scale compensation");
        reveal_strlit("Namespaces");
        assert("Units not in meters"@.len() == 19);
        assert("Incorrect axis"@.len() == 14);
        assert("Root does not have zero transform"@.len() == 33);
        assert("Mesh size is wrong"@.len() == 18);
        assert("No normals"@.len() == 10);
        assert("Contains quads"@.len() == 14);
        assert("Scale compensation"@.len() == 18);
        assert("Namespaces"@.len() == 10);
        assert("Incorrect axis"@[0] == 'I');
        assert("Contains quads"@[0] == 'C');
        assert("Mesh size is wrong"@[0] == 'M');
        assert("Scale compensation"@[0] == 'S');
        assert("No normals"@[1] == 'o');
        assert("Namespaces"@[1] == 'a');
    }
    rep.add_category(
        String::from_str("Units not in meters"),
        units_are_in_meters::verify(doc),
    );
    rep.add_category(
        String::from_str("Incorrect axis"),
        correct_coordinate_axis::verify(doc),
    );
    rep.add_category(
        String::from_str("Root does not have zero transform"),
        root_has_identity_transform::verify(doc),
    );
    let mut size_msgs: Vec<String> = Vec::new();
    if let Option::Some(msg) = bounding_box_size::verify(doc, extents) {
        size_msgs.push(msg);
    }
    proof {
        match bounding_box_size::spec_scan(doc.objects@, extents@) {
            Option::Some(msg) => {
                assert(size_msgs.deep_view() =~= seq![msg]);
            },
            Option::None => {
                assert(size_msgs.deep_view() =~= Seq::<Seq<char>>::empty());
            },
        }
    }
    rep.add_category(String::from_str("Mesh size is wrong"), size_msgs);
    rep.add_category(String::from_str("No normals"), meshes_have_normals::verify(doc));
    rep.add_category(
        String::from_str("Scale compensation"),
        no_scale_compensation::verify(doc),
    );
    rep.add_category(String::from_str("Namespaces"), no_namespaces::verify(doc));
    if check_quads {
        let quad_msgs = match no_quads::verify(doc) {
            Result::Ok(msgs) => msgs,
            Result::Err(e) => {
                return Err(e);
            },
        };
        rep.add_category(String::from_str("Contains quads"), quad_msgs);
    }
    Ok(rep)
}

/// The file stem and path mark a high-poly raw asset, which is skipped by the
/// triangulation check: the stem ends in `_HP` and the path passes through a
/// `Raw~` directory.
pub open spec fn spec_is_highpoly(stem: Seq<char>, full_path: Seq<char>) -> bool {
    ends_with_seq(stem, "_HP"@) && contains_seq(full_path, "Raw~"@)
}

/// Decides from a file's stem and full path whether it is a high-poly raw
/// asset exempt from the triangulation check.
pub fn is_highpoly_name(stem: &str, full_path: &str) -> (r: bool)
    ensures
        r == spec_is_highpoly(stem@, full_path@),
{
    str_ends_with(stem, "_HP") && str_contains(full_path, "Raw~")
}

/// A whitespace character of the ASCII range.
pub open spec fn spec_ascii_ws(c: char) -> bool {
    c == ' ' || c == '\t' || c == '\n' || c == '\r' || c == '\u{b}' || c == '\u{c}'
}

/// The letters `f`, `b`, `x` (in either case) stand at position `lo`, with
/// nothing but ASCII whitespace on either side.
pub open spec fn spec_fbx_at(s: Seq<char>, lo: int) -> bool {
    &&& 0 <= lo && lo + 3 <= s.len()
    &&& (forall|t: int| 0 <= t < lo ==> spec_ascii_ws(#[trigger] s[t]))
    &&& (forall|t: int| lo + 3 <= t < s.len() ==> spec_ascii_ws(#[trigger] s[t]))
    &&& (s[lo] == 'f' || s[lo] == 'F')
    &&& (s[lo + 1] == 'b' || s[lo + 1] == 'B')
    &&& (s[lo + 2] == 'x' || s[lo + 2] == 'X')
}

/// The extension names the format: after trimming ASCII whitespace, exactly
/// the three letters `f`, `b`, `x`, each in either case.
pub open spec fn spec_is_fbx_extension(s: Seq<char>) -> bool {
    exists|lo: int| #[trigger] spec_fbx_at(s, lo)
}

fn is_ascii_ws(c: char) -> (r: bool)
    ensures
        r == spec_ascii_ws(c),
{
    c == ' ' || c == '\t' || c == '\n' || c == '\r' || c == '\u{b}' || c == '\u{c}'
}

/// Decides whether the extension, case-insensitively and up to surrounding
/// whitespace, names the format.
pub fn is_fbx_extension(ext: &str) -> (r: bool)
    ensures
        r == spec_is_fbx_extension(ext@),
{
    let n = ext.unicode_len();
    let mut lo: usize = 0;
    while lo < n && is_ascii_ws(ext.get_char(lo))
        invariant
            lo <= n,
            n == ext@.len(),
            forall|t: int| 0 <= t < lo ==> spec_ascii_ws(#[trigger] ext@[t]),
        decreases n - lo,
    {
        lo += 1;
    }
    // lo is the first non-whitespace position (or n)
    if n < 3 || lo > n - 3 {
        proof {
            assert forall|k: int| !spec_fbx_at(ext@, k) by {
                if spec_fbx_at(ext@, k) {
                    // k + 3 <= n < lo + 3, so k < lo and position k is whitespace
                    assert(spec_ascii_ws(ext@[k]));
                }
            };
        }
        return false;
    }
    let c0 = ext.get_char(lo);
    let c1 = ext.get_char(lo + 1);
    let c2 = ext.get_char(lo + 2);
    let head = (c0 == 'f' || c0 == 'F') && (c1 == 'b' || c1 == 'B') && (c2 == 'x' || c2 == 'X');
    let mut hi: usize = lo + 3;
    let mut tail_ws = true;
    while hi < n
        invariant
            lo + 3 <= hi <= n,
            n == ext@.len(),
            tail_ws == forall|t: int| lo + 3 <= t < hi ==> spec_ascii_ws(#[trigger] ext@[t]),
        decreases n - hi,
    {
        if !is_ascii_ws(ext.get_char(hi)) {
            proof {
                assert(!spec_ascii_ws(ext@[hi as int]));
            }
            tail_ws = false;
        }
        hi += 1;
    }
    let r = head && tail_ws;
    proof {
        if r {
            assert(spec_fbx_at(ext@, lo as int));
        } else {
            // any witness must start exactly at the first non-whitespace
            // position, which is lo, so no witness exists
            assert forall|k: int| !spec_fbx_at(ext@, k) by {
                if spec_fbx_at(ext@, k) {
                    // 'f' and 'F' are not whitespace, so k >= lo; and lo is not
                    // whitespace (lo < n here), so lo >= k, hence k == lo
                    assert(!spec_ascii_ws(ext@[k]));
                    assert(k >= lo);
                    if k > lo as int {
                        assert(spec_ascii_ws(ext@[lo as int]));
                        assert(false);
                    }
                    assert(k == lo as int);
                    assert(!head || !tail_ws);
                    assert(false);
                }
            };
        }
    }
    r
}

} // verus!
