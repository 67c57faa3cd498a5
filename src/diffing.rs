use crate::error::{ResymCoreError, Result};
use vstd::prelude::*;

verus! {

/// The version written into diff headers.
pub const PKG_VERSION: &'static str = "0.4.0";

/// How a line of a diff relates the two texts.
#[derive(Clone, Copy, PartialEq, Eq, Debug, Hash, Structural)]
pub enum DiffChange {
    /// The line is in both texts.
    Equal,
    /// The line is only in the old text.
    Delete,
    /// The line is only in the new text.
    Insert,
}

/// The index of a line in the old text and in the new text, where it has one.
pub type DiffIndices = (Option<usize>, Option<usize>);

/// A line diff of two texts: one metadata entry per line of `data`, which
/// holds each line behind a `' '`, `'-'` or `'+'` marker.
#[derive(Default)]
pub struct Diff {
    pub metadata: Vec<(DiffIndices, DiffChange)>,
    pub data: String,
}

/// One line of a diff, with its indices and its text (line break included).
pub struct DiffLine {
    pub indices: DiffIndices,
    pub change: DiffChange,
    pub line: String,
}

/// What a diff line is made of, as plain values.
pub type LineView = (DiffIndices, DiffChange, Seq<char>);

impl View for DiffLine {
    type V = LineView;

    open spec fn view(&self) -> LineView {
        (self.indices, self.change, self.line@)
    }
}

impl View for Diff {
    type V = (Seq<(DiffIndices, DiffChange)>, Seq<char>);

    open spec fn view(&self) -> Self::V {
        (self.metadata@, self.data@)
    }
}

/// Basic information on a loaded PDB file, as shown in diff headers.
pub struct PdbFileInfo {
    /// The path the file was loaded from, as displayed.
    pub file_path: String,
    /// The image architecture the file describes, as displayed.
    pub machine_type: String,
}

/// The name of the line changes that a line diff of `old` and `new` yields.
pub uninterp spec fn line_changes_of(old: Seq<char>, new: Seq<char>) -> Seq<LineView>;

pub open spec fn line_views(lines: Seq<DiffLine>) -> Seq<LineView> {
    lines.map_values(|l: DiffLine| l@)
}

/// The text of the lines that are not tagged `skipped`, joined in order.
pub open spec fn side_text(lines: Seq<LineView>, skipped: DiffChange) -> Seq<char>
    decreases lines.len(),
{
    if lines.len() == 0 {
        Seq::empty()
    } else {
        side_text(lines.drop_last(), skipped) + if lines.last().1 == skipped {
            Seq::empty()
        } else {
            lines.last().2
        }
    }
}

/// The old text that a sequence of diff lines describes.
pub open spec fn old_text(lines: Seq<LineView>) -> Seq<char> {
    side_text(lines, DiffChange::Insert)
}

/// The new text that a sequence of diff lines describes.
pub open spec fn new_text(lines: Seq<LineView>) -> Seq<char> {
    side_text(lines, DiffChange::Delete)
}

/// Each line holds text, and has an index exactly on the sides it belongs to.
pub open spec fn lines_well_formed(lines: Seq<LineView>) -> bool {
    forall|i: int|
        0 <= i < lines.len() ==> {
            &&& (#[trigger] lines[i]).2.len() > 0
            &&& (lines[i].0.0 is Some <==> lines[i].1 != DiffChange::Insert)
            &&& (lines[i].0.1 is Some <==> lines[i].1 != DiffChange::Delete)
        }
}

/// Relies on `similar::TextDiff::from_lines` and `Change`'s accessors: the
/// changes split both texts into non-empty lines that keep their line breaks;
/// those not inserted are the old text in order, those not deleted the new
/// text in order, and a change has an index on each side that it belongs to.
#[verifier::external_body]
fn line_changes(old: &str, new: &str) -> (r: Vec<DiffLine>)
    ensures
        line_views(r@) == line_changes_of(old@, new@),
        old_text(line_views(r@)) == old@,
        new_text(line_views(r@)) == new@,
        lines_well_formed(line_views(r@)),
{
    let mut lines = Vec::new();
    for c in similar::TextDiff::from_lines(old, new).iter_all_changes() {
        let change = match c.tag() {
            similar::ChangeTag::Equal => DiffChange::Equal,
            similar::ChangeTag::Delete => DiffChange::Delete,
            similar::ChangeTag::Insert => DiffChange::Insert,
        };
        let line = c.value().to_string();
        lines.push(DiffLine { indices: (c.old_index(), c.new_index()), change, line });
    }
    lines
}

/// Read without their markers, the lines of the diff of `old` and `new` that
/// are not inserted give back `old`, and those not deleted give back `new`:
/// lines marked `'+'` or `'-'` are those that differ, and unmarked lines are
/// in both texts as they stand.
pub open spec fn reproduces(old: Seq<char>, new: Seq<char>) -> bool {
    &&& old_text(line_changes_of(old, new)) == old
    &&& new_text(line_changes_of(old, new)) == new
}

/// The marker put in front of a line of the given kind.
pub open spec fn marker(c: DiffChange) -> Seq<char> {
    match c {
        DiffChange::Equal => " "@,
        DiffChange::Delete => "-"@,
        DiffChange::Insert => "+"@,
    }
}

pub open spec fn ends_with_line_break(s: Seq<char>) -> bool {
    s.len() > 0 && (s.last() == '\n' || s.last() == '\r')
}

/// A diff line as written in a diff's data: marker, text, and a line break
/// where the text has none.
pub open spec fn rendered_line(l: LineView) -> Seq<char> {
    marker(l.1) + l.2 + if ends_with_line_break(l.2) {
        Seq::empty()
    } else {
        "\n"@
    }
}

/// The data of a diff made of `lines`.
pub open spec fn rendered(lines: Seq<LineView>) -> Seq<char>
    decreases lines.len(),
{
    if lines.len() == 0 {
        Seq::empty()
    } else {
        rendered(lines.drop_last()) + rendered_line(lines.last())
    }
}

/// The metadata of a diff made of `lines`.
pub open spec fn metadata_of(lines: Seq<LineView>) -> Seq<(DiffIndices, DiffChange)> {
    lines.map_values(|l: LineView| (l.0, l.1))
}

/// The diff of two texts, as metadata and data.
pub open spec fn diff_of(old: Seq<char>, new: Seq<char>) -> (
    Seq<(DiffIndices, DiffChange)>,
    Seq<char>,
) {
    (metadata_of(line_changes_of(old, new)), rendered(line_changes_of(old, new)))
}

fn marker_str(c: DiffChange) -> (r: &'static str)
    ensures
        r@ == marker(c),
{
    match c {
        DiffChange::Equal => " ",
        DiffChange::Delete => "-",
        DiffChange::Insert => "+",
    }
}

fn has_line_break_at_end(s: &String) -> (r: bool)
    ensures
        r == ends_with_line_break(s@),
{
    let t = s.as_str();
    let n = t.unicode_len();
    if n == 0 {
        false
    } else {
        let c = t.get_char(n - 1);
        c == '\n' || c == '\r'
    }
}

/// The line diff of two texts. Read without their markers, the lines that are
/// not inserted give back `str_from` and those not deleted give back `str_to`.
pub fn generate_diff(str_from: &str, str_to: &str) -> (r: Result<Diff>)
    ensures
        r matches Ok(d) && d@ == diff_of(str_from@, str_to@),
        reproduces(str_from@, str_to@),
        lines_well_formed(line_changes_of(str_from@, str_to@)),
{
    let changes = line_changes(str_from, str_to);
    let ghost lines = line_views(changes@);
    let mut metadata: Vec<(DiffIndices, DiffChange)> = Vec::new();
    let mut data = String::new();
    let mut i: usize = 0;
    while i < changes.len()
        invariant
            i <= changes@.len(),
            lines == line_views(changes@),
            metadata@ == metadata_of(lines.take(i as int)),
            data@ == rendered(lines.take(i as int)),
        decreases changes.len() - i,
    {
        let line = &changes[i];
        metadata.push((line.indices, line.change));
        data.append(marker_str(line.change));
        data.append(line.line.as_str());
        if !has_line_break_at_end(&line.line) {
            data.append("\n");
        }
        proof {
            let next = lines.take(i + 1);
            assert(next.drop_last() =~= lines.take(i as int));
            assert(next.last() == line@);
            assert(metadata@ =~= metadata_of(next));
        }
        i += 1;
    }
    proof {
        assert(lines.take(i as int) =~= lines);
    }
    Ok(Diff { metadata, data })
}

/// Changes that describe an empty old text are all insertions, and changes
/// that describe an empty new text are all deletions.
proof fn lemma_one_sided(lines: Seq<LineView>, skipped: DiffChange)
    requires
        lines_well_formed(lines),
        side_text(lines, skipped).len() == 0,
    ensures
        forall|i: int| 0 <= i < lines.len() ==> #[trigger] lines[i].1 == skipped,
    decreases lines.len(),
{
    if lines.len() > 0 {
        let rest = lines.drop_last();
        assert(lines[lines.len() - 1].2.len() > 0);
        assert forall|i: int| 0 <= i < rest.len() implies (#[trigger] rest[i]).2.len() > 0 && (
        rest[i].0.0 is Some <==> rest[i].1 != DiffChange::Insert) && (rest[i].0.1 is Some
            <==> rest[i].1 != DiffChange::Delete) by {
            assert(rest[i] == lines[i]);
        }
        lemma_one_sided(rest, skipped);
        assert forall|i: int| 0 <= i < lines.len() implies #[trigger] lines[i].1 == skipped by {
            if i < rest.len() {
                assert(rest[i] == lines[i]);
            }
        }
    }
}

/// The comment banner put above both texts of a diff.
pub open spec fn diff_header(from: PdbFileInfo, to: PdbFileInfo) -> Seq<char> {
    "//\n"@ + "// Showing differences between two PDB files:\n"@ + "//\n"@
        + "// Reference PDB file: "@ + from.file_path@ + "\n"@ + "// Image architecture: "@
        + from.machine_type@ + "\n"@ + "//\n"@ + "// New PDB file: "@ + to.file_path@ + "\n"@
        + "// Image architecture: "@ + to.machine_type@ + "\n"@ + "//\n"@
        + "// Information extracted with resym v"@ + PKG_VERSION@ + "\n"@ + "//\n"@
}

/// The comment banner that names both PDB files of a diff, their image
/// architectures and the tool's version.
pub fn generate_diff_header(pdb_file_from: &PdbFileInfo, pdb_file_to: &PdbFileInfo) -> (r: String)
    ensures
        r@ == diff_header(*pdb_file_from, *pdb_file_to),
{
    let mut h = String::from_str("//\n");
    h.append("// Showing differences between two PDB files:\n");
    h.append("//\n");
    h.append("// Reference PDB file: ");
    h.append(pdb_file_from.file_path.as_str());
    h.append("\n");
    h.append("// Image architecture: ");
    h.append(pdb_file_from.machine_type.as_str());
    h.append("\n");
    h.append("//\n");
    h.append("// New PDB file: ");
    h.append(pdb_file_to.file_path.as_str());
    h.append("\n");
    h.append("// Image architecture: ");
    h.append(pdb_file_to.machine_type.as_str());
    h.append("\n");
    h.append("//\n");
    h.append("// Information extracted with resym v");
    h.append(PKG_VERSION);
    h.append("\n");
    h.append("//\n");
    h
}

/// Every line of a diff's metadata carries the tag `c`.
pub open spec fn all_tagged(metadata: Seq<(DiffIndices, DiffChange)>, c: DiffChange) -> bool {
    forall|i: int| 0 <= i < metadata.len() ==> (#[trigger] metadata[i]).1 == c
}

/// The text of a reconstruction; one that failed counts as empty.
pub open spec fn text_or_empty(r: Result<String>) -> Seq<char> {
    match r {
        Ok(s) => s@,
        Err(_) => Seq::empty(),
    }
}

/// The diff of two reconstructions, each put behind `prefix`; `None` where
/// both are empty, that is where the target exists on neither side.
pub open spec fn reconstructions_diff(
    prefix: Seq<char>,
    from: Result<String>,
    to: Result<String>,
) -> Option<(Seq<(DiffIndices, DiffChange)>, Seq<char>)> {
    if text_or_empty(from).len() == 0 && text_or_empty(to).len() == 0 {
        None
    } else {
        Some(diff_of(prefix + text_or_empty(from), prefix + text_or_empty(to)))
    }
}

fn text_of(r: Result<String>) -> (s: String)
    ensures
        s@ == text_or_empty(r),
{
    match r {
        Ok(s) => s,
        Err(_) => String::new(),
    }
}

/// Diffs two reconstructions behind a common prefix, or gives `None` where
/// both are empty.
fn diff_reconstructions(prefix: String, from: Result<String>, to: Result<String>) -> (r: Option<
    Diff,
>)
    ensures
        match r {
            Some(d) => {
                &&& reconstructions_diff(prefix@, from, to) == Some(d@)
                &&& reproduces(prefix@ + text_or_empty(from), prefix@ + text_or_empty(to))
                &&& prefix@.len() == 0 && text_or_empty(from).len() == 0 ==> all_tagged(
                    d@.0,
                    DiffChange::Insert,
                )
                &&& prefix@.len() == 0 && text_or_empty(to).len() == 0 ==> all_tagged(
                    d@.0,
                    DiffChange::Delete,
                )
            },
            None => reconstructions_diff(prefix@, from, to) is None,
        },
{
    let from_text = text_of(from);
    let to_text = text_of(to);
    if from_text.as_str().unicode_len() == 0 && to_text.as_str().unicode_len() == 0 {
        return None;
    }
    let old = prefix.clone().concat(from_text.as_str());
    let new = prefix.concat(to_text.as_str());
    let d = generate_diff(old.as_str(), new.as_str());
    proof {
        assert(old@ == prefix@ + text_or_empty(from));
        assert(new@ == prefix@ + text_or_empty(to));
        if prefix@.len() == 0 {
            assert(old@ =~= from_text@);
            assert(new@ =~= to_text@);
            let lines = line_changes_of(old@, new@);
            if from_text@.len() == 0 {
                lemma_one_sided(lines, DiffChange::Insert);
                assert(all_tagged(metadata_of(lines), DiffChange::Insert));
            }
            if to_text@.len() == 0 {
                lemma_one_sided(lines, DiffChange::Delete);
                assert(all_tagged(metadata_of(lines), DiffChange::Delete));
            }
        }
    }
    match d {
        Ok(d) => Some(d),
        Err(_) => None,
    }
}

/// What is put before both reconstructions of a type or symbol diff.
pub open spec fn header_or_empty(print_header: bool, from: PdbFileInfo, to: PdbFileInfo) -> Seq<
    char,
> {
    if print_header {
        diff_header(from, to)
    } else {
        Seq::empty()
    }
}

/// What is put before both reconstructions of a module diff: the banner is
/// followed by an empty line there.
pub open spec fn module_header_or_empty(print_header: bool, from: PdbFileInfo, to: PdbFileInfo) -> Seq<
    char,
> {
    if print_header {
        diff_header(from, to) + "\n"@
    } else {
        Seq::empty()
    }
}

/// `r` is the diff of two reconstructions behind `prefix`, with `not_found`
/// holding where neither exists; a one-sided diff without prefix shows
/// every line as inserted or as deleted.
pub open spec fn diffed_or(
    r: Result<Diff>,
    prefix: Seq<char>,
    from: Result<String>,
    to: Result<String>,
    not_found: spec_fn(ResymCoreError) -> bool,
) -> bool {
    match r {
        Ok(d) => {
            &&& reconstructions_diff(prefix, from, to) == Some(d@)
            &&& reproduces(prefix + text_or_empty(from), prefix + text_or_empty(to))
            &&& prefix.len() == 0 && text_or_empty(from).len() == 0 ==> all_tagged(
                d@.0,
                DiffChange::Insert,
            )
            &&& prefix.len() == 0 && text_or_empty(to).len() == 0 ==> all_tagged(
                d@.0,
                DiffChange::Delete,
            )
        },
        Err(e) => reconstructions_diff(prefix, from, to) is None && not_found(e),
    }
}

fn header_for(print_header: bool, from: &PdbFileInfo, to: &PdbFileInfo) -> (r: String)
    ensures
        r@ == header_or_empty(print_header, *from, *to),
{
    if print_header {
        generate_diff_header(from, to)
    } else {
        String::new()
    }
}

/// Diffs the reconstructions of the type named `type_to_diff` from two PDB files; a
/// reconstruction that failed counts as empty. Fails with
/// `TypeNameNotFoundError` where both are empty.
pub fn diff_type_by_name(
    pdb_file_from: &PdbFileInfo,
    pdb_file_to: &PdbFileInfo,
    type_to_diff: &str,
    reconstructed_type_from: Result<String>,
    reconstructed_type_to: Result<String>,
    print_header: bool,
) -> (r: Result<Diff>)
    ensures
        diffed_or(
            r,
            header_or_empty(print_header, *pdb_file_from, *pdb_file_to),
            reconstructed_type_from,
            reconstructed_type_to,
            |e: ResymCoreError|
                e matches ResymCoreError::TypeNameNotFoundError(n) && n@ == type_to_diff@,
        ),
{
    let header = header_for(print_header, pdb_file_from, pdb_file_to);
    match diff_reconstructions(header, reconstructed_type_from, reconstructed_type_to) {
        Some(d) => Ok(d),
        None => Err(ResymCoreError::TypeNameNotFoundError(String::from_str(type_to_diff))),
    }
}

/// Diffs the reconstructions of the module `module_to_diff` from two PDB
/// files; a reconstruction that failed counts as empty. Fails with
/// `ModuleNotFoundError` where both are empty.
pub fn diff_module_by_path(
    pdb_file_from: &PdbFileInfo,
    pdb_file_to: &PdbFileInfo,
    module_to_diff: &str,
    reconstructed_module_from: Result<String>,
    reconstructed_module_to: Result<String>,
    print_header: bool,
) -> (r: Result<Diff>)
    ensures
        diffed_or(
            r,
            module_header_or_empty(print_header, *pdb_file_from, *pdb_file_to),
            reconstructed_module_from,
            reconstructed_module_to,
            |e: ResymCoreError|
                e matches ResymCoreError::ModuleNotFoundError(n) && n@ == module_to_diff@,
        ),
{
    let mut header = header_for(print_header, pdb_file_from, pdb_file_to);
    if print_header {
        header.append("\n");
    }
    match diff_reconstructions(header, reconstructed_module_from, reconstructed_module_to) {
        Some(d) => Ok(d),
        None => Err(ResymCoreError::ModuleNotFoundError(String::from_str(module_to_diff))),
    }
}

/// Diffs the reconstructions of the symbol `symbol_name` from two PDB files;
/// a reconstruction that failed counts as empty. Fails with
/// `SymbolNotFoundError` where both are empty.
pub fn diff_symbol_by_name(
    pdb_file_from: &PdbFileInfo,
    pdb_file_to: &PdbFileInfo,
    symbol_name: &str,
    reconstructed_symbol_from: Result<String>,
    reconstructed_symbol_to: Result<String>,
    print_header: bool,
) -> (r: Result<Diff>)
    ensures
        diffed_or(
            r,
            header_or_empty(print_header, *pdb_file_from, *pdb_file_to),
            reconstructed_symbol_from,
            reconstructed_symbol_to,
            |e: ResymCoreError|
                e matches ResymCoreError::SymbolNotFoundError(n) && n@ == symbol_name@,
        ),
{
    let header = header_for(print_header, pdb_file_from, pdb_file_to);
    match diff_reconstructions(header, reconstructed_symbol_from, reconstructed_symbol_to) {
        Some(d) => Ok(d),
        None => Err(ResymCoreError::SymbolNotFoundError(String::from_str(symbol_name))),
    }
}

/// Diffing is deterministic: two diffs of the same reconstructions behind the
/// same prefix both succeed with equal metadata and data, or both fail.
pub proof fn lemma_diff_deterministic(
    r1: Result<Diff>,
    r2: Result<Diff>,
    prefix: Seq<char>,
    from: Result<String>,
    to: Result<String>,
    not_found: spec_fn(ResymCoreError) -> bool,
)
    requires
        diffed_or(r1, prefix, from, to, not_found),
        diffed_or(r2, prefix, from, to, not_found),
    ensures
        match (r1, r2) {
            (Ok(d1), Ok(d2)) => d1@ == d2@,
            (Err(_), Err(_)) => true,
            _ => false,
        },
{
}

} // verus!
