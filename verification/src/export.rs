use vstd::prelude::*;

use crate::pathway::{target_dir_spec, PathwayId};

verus! {

/// The index of the last occurrence of `c` in `s`, or -1 if `c` does not
/// occur.
pub open spec fn last_index_of(s: Seq<char>, c: char) -> int
    decreases s.len(),
{
    if s.len() == 0 {
        -1
    } else if s[s.len() - 1] == c {
        s.len() - 1
    } else {
        last_index_of(s.drop_last(), c)
    }
}

pub proof fn lemma_last_index_of_props(s: Seq<char>, c: char)
    ensures
        -1 <= last_index_of(s, c) < s.len(),
        last_index_of(s, c) >= 0 ==> s[last_index_of(s, c)] == c,
        forall|k: int| last_index_of(s, c) < k < s.len() ==> s[k] != c,
    decreases s.len(),
{
    if s.len() > 0 && s[s.len() - 1] != c {
        lemma_last_index_of_props(s.drop_last(), c);
        assert(forall|k: int| 0 <= k < s.len() - 1 ==> s.drop_last()[k] == s[k]);
    }
}

/// If `c` stands at `j` and nowhere later, then `j` is the last occurrence.
pub proof fn lemma_last_index_of_found(s: Seq<char>, c: char, j: int)
    requires
        0 <= j < s.len(),
        s[j] == c,
        forall|k: int| j < k < s.len() ==> s[k] != c,
    ensures
        last_index_of(s, c) == j,
    decreases s.len(),
{
    if j < s.len() - 1 {
        assert(forall|k: int| 0 <= k < s.len() - 1 ==> s.drop_last()[k] == s[k]);
        lemma_last_index_of_found(s.drop_last(), c, j);
    }
}

/// If `c` occurs nowhere in `s`, the last occurrence is -1.
pub proof fn lemma_last_index_of_absent(s: Seq<char>, c: char)
    requires
        forall|k: int| 0 <= k < s.len() ==> s[k] != c,
    ensures
        last_index_of(s, c) == -1,
    decreases s.len(),
{
    if s.len() > 0 {
        assert(forall|k: int| 0 <= k < s.len() - 1 ==> s.drop_last()[k] == s[k]);
        lemma_last_index_of_absent(s.drop_last(), c);
    }
}

/// Find the index of the last occurrence of `c` in `s`, if any.
pub fn find_last_char(s: &str, c: char) -> (r: Option<usize>)
    ensures
        r is Some <==> last_index_of(s@, c) >= 0,
        r matches Some(i) ==> i == last_index_of(s@, c),
{
    let n = s.unicode_len();
    let mut i: usize = n;
    while i > 0
        invariant
            i <= n,
            n == s@.len(),
            forall|k: int| i <= k < n ==> s@[k] != c,
        decreases i,
    {
        i = i - 1;
        if s.get_char(i) == c {
            proof {
                lemma_last_index_of_found(s@, c, i as int);
            }
            return Some(i);
        }
    }
    proof {
        lemma_last_index_of_absent(s@, c);
    }
    None
}

/// The last path component of `p`: everything after the last `/`, or all of
/// `p` if it has no `/`.
pub open spec fn last_component_spec(p: Seq<char>) -> Seq<char> {
    p.subrange(last_index_of(p, '/') + 1, p.len() as int)
}

/// The parent of path `p`: everything before the last `/`, or nothing if `p`
/// has no `/`.
pub open spec fn parent_dir_spec(p: Seq<char>) -> Option<Seq<char>> {
    if last_index_of(p, '/') >= 0 {
        Some(p.subrange(0, last_index_of(p, '/')))
    } else {
        None
    }
}

/// The last path component of `p`.
pub fn path_last_component(p: &str) -> (r: String)
    ensures
        r@ == last_component_spec(p@),
{
    proof {
        lemma_last_index_of_props(p@, '/');
    }
    match find_last_char(p, '/') {
        Some(i) => {
            let n = p.unicode_len();
            p.substring_char(i + 1, n).to_owned()
        },
        None => p.to_owned(),
    }
}

/// The parent directory of path `p`, or `None` if `p` has no separator.
pub fn path_parent_dir(p: &str) -> (r: Option<String>)
    ensures
        r is Some <==> parent_dir_spec(p@) is Some,
        r matches Some(d) ==> d@ == parent_dir_spec(p@)->0,
{
    proof {
        lemma_last_index_of_props(p@, '/');
    }
    match find_last_char(p, '/') {
        Some(i) => Some(p.substring_char(0, i).to_owned()),
        None => None,
    }
}

/// The file stem of a path's last component: the component up to its last
/// `.`, or the whole component if it has none.
pub open spec fn file_stem_spec(p: Seq<char>) -> Seq<char> {
    let lc = last_component_spec(p);
    if last_index_of(lc, '.') >= 0 {
        lc.subrange(0, last_index_of(lc, '.'))
    } else {
        lc
    }
}

/// The file stem of path `p`: its last component with any extension after
/// the final dot removed.
pub fn path_file_stem(p: &str) -> (r: String)
    ensures
        r@ == file_stem_spec(p@),
{
    let lc = path_last_component(p);
    proof {
        lemma_last_index_of_props(lc@, '.');
    }
    match find_last_char(lc.as_str(), '.') {
        Some(i) => lc.as_str().substring_char(0, i).to_owned(),
        None => lc,
    }
}

/// Join one path component onto a directory path with `/`.
pub fn path_join(dir: &str, name: &str) -> (r: String)
    ensures
        r@ == dir@ + seq!['/'] + name@,
{
    let mut r: String = dir.to_owned();
    r.append("/");
    r.append(name);
    proof {
        reveal_strlit("/");
        assert("/"@ =~= seq!['/']);
    }
    r
}

/// The export location of one pathway under the export root:
/// `{export_root}/{pathway subdirectory}`.
pub fn pathway_export_loc(export_root: &str, p: PathwayId) -> (r: String)
    ensures
        r@ == export_root@ + seq!['/'] + target_dir_spec(p),
{
    path_join(export_root, p.target_dir())
}

/// The name under which the auxiliary template file is materialized for a
/// structure: `SMCastep_Extension_{structure name}.xms`.
pub fn aux_extension_file_name(structure_name: &str) -> (r: String)
    ensures
        r@ == "SMCastep_Extension_"@ + structure_name@ + ".xms"@,
{
    let mut r: String = "SMCastep_Extension_".to_owned();
    r.append(structure_name);
    r.append(".xms");
    r
}

/// The auxiliary-template copy as a step on the destination file's state:
/// an absent file receives the template, an existing file is left untouched.
pub open spec fn aux_copy_step(dest: Option<Seq<u8>>, template: Seq<u8>) -> Option<Seq<u8>> {
    if dest is None {
        Some(template)
    } else {
        dest
    }
}

/// Whether the export pass copies the auxiliary template: only when the
/// destination file does not exist yet.
pub fn should_copy_aux(dest_exists: bool) -> (r: bool)
    ensures
        r == !dest_exists,
{
    !dest_exists
}

/// Exporting the same structure twice is idempotent: the second
/// auxiliary-template copy finds the file present, changes nothing, and the
/// file's bytes are those of one export.
pub proof fn lemma_aux_copy_idempotent(dest: Option<Seq<u8>>, template: Seq<u8>)
    ensures
        aux_copy_step(aux_copy_step(dest, template), template) == aux_copy_step(dest, template),
        aux_copy_step(dest, template) is Some,
{
}

/// The shell command one batch script runs per structure directory.
pub open spec fn script_command_spec(t: ServerScriptType) -> Seq<char> {
    match t {
        ServerScriptType::PBS => "qsub hpc.pbs.sh"@,
        ServerScriptType::LSF => "bsub MS70_YW_CASTEP.lsf"@,
    }
}

/// Which batch-submission system a generated script targets.
#[derive(Clone, Copy, PartialEq, Eq, Structural, Debug)]
pub enum ServerScriptType {
    PBS,
    LSF,
}

/// The full content of the batch-submission script for the given server
/// type: a loop over the structure directories that submits each one.
pub fn batch_script_content(t: ServerScriptType) -> (r: String)
    ensures
        r@ == "#!/bin/sh\nfor i in `find . -maxdepth 1 -mindepth 1 -type d`; do\n    cd $i\n    "@
            + script_command_spec(t) + " && cd ..\ndone"@,
{
    let command: &str = match t {
        ServerScriptType::PBS => "qsub hpc.pbs.sh",
        ServerScriptType::LSF => "bsub MS70_YW_CASTEP.lsf",
    };
    let mut r: String =
        "#!/bin/sh\nfor i in `find . -maxdepth 1 -mindepth 1 -type d`; do\n    cd $i\n    ".to_owned();
    r.append(command);
    r.append(" && cd ..\ndone");
    r
}

/// The path of the batch-submission script inside a metal's subdirectory.
pub fn batch_script_path(metal_dir: &str) -> (r: String)
    ensures
        r@ == metal_dir@ + seq!['/'] + "batch_submit.sh"@,
{
    path_join(metal_dir, "batch_submit.sh")
}

/// The per-metal subdirectory under the export root that reorganization
/// gathers a metal's structures into.
pub fn metal_dir_path(target_directory: &str, symbol: &str) -> (r: String)
    ensures
        r@ == target_directory@ + seq!['/'] + symbol@,
{
    path_join(target_directory, symbol)
}

/// The glob pattern matching the structural-model files below a directory.
pub fn msi_glob_pattern(target_directory: &str) -> (r: String)
    ensures
        r@ == target_directory@ + "/**/*.msi"@,
{
    let mut r: String = target_directory.to_owned();
    r.append("/**/*.msi");
    r
}

/// The glob pattern matching one metal's structure directories below the
/// export root.
pub fn metal_seeds_pattern(target_directory: &str, symbol: &str) -> (r: String)
    ensures
        r@ == target_directory@ + "/**/SAC_GDY_"@ + symbol@ + "*_opt"@,
{
    let mut r: String = target_directory.to_owned();
    r.append("/**/SAC_GDY_");
    r.append(symbol);
    r.append("*_opt");
    r
}

/// Where reorganization moves a structure directory: the metal's
/// subdirectory, keeping the structure directory's own name.  Tolerates
/// already-moved entries: moving the computed destination again yields the
/// same destination, so a partially reorganized tree converges.
pub fn reorganize_destination(metal_dir: &str, entry_path: &str) -> (r: String)
    ensures
        r@ == metal_dir@ + seq!['/'] + last_component_spec(entry_path@),
{
    let lc = path_last_component(entry_path);
    path_join(metal_dir, lc.as_str())
}

/// The export directory and file path of one metal-variant model:
/// `./gdy_sac_models/{name}` holding `{name}.msi`.
pub fn metal_model_export_paths(lat_name: &str) -> (r: (String, String))
    ensures
        r.0@ == "./gdy_sac_models/"@ + lat_name@,
        r.1@ == r.0@ + seq!['/'] + lat_name@ + ".msi"@,
{
    let mut dir: String = "./gdy_sac_models/".to_owned();
    dir.append(lat_name);
    let mut path: String = path_join(dir.as_str(), lat_name);
    path.append(".msi");
    (dir, path)
}

} // verus!
