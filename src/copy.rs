use vstd::prelude::*;

use crate::substitute::substitute;

verus! {

/// The prefix that marks version-control metadata directories.
pub open spec fn git_prefix() -> Seq<char> {
    seq!['.', 'g', 'i', 't']
}

/// `name` begins with the version-control prefix.
pub open spec fn is_git_name(name: Seq<char>) -> bool {
    name.len() >= 4 && name.subrange(0, 4) == git_prefix()
}

/// The path of `name` inside the directory `dir`.
pub open spec fn join(dir: Seq<char>, name: Seq<char>) -> Seq<char> {
    if dir.len() == 0 {
        name
    } else if dir.last() == '/' {
        dir + name
    } else {
        dir + seq!['/'] + name
    }
}

/// Why a copy was refused.
#[derive(Debug)]
pub enum CopyError {
    /// The destination already exists as a directory; holds its path.
    DestinationExists(String),
}

/// The message shown to the user for an error.
pub open spec fn copy_error_message(e: CopyError) -> Seq<char> {
    match e {
        CopyError::DestinationExists(path) => "Directory already exists: "@ + path@,
    }
}

impl CopyError {
    /// The message shown to the user.
    pub fn to_string(&self) -> (r: String)
        ensures
            r@ == copy_error_message(*self),
    {
        match self {
            CopyError::DestinationExists(path) => {
                let mut s = String::from_str("Directory already exists: ");
                s.append(path.as_str());
                s
            },
        }
    }
}

/// Tells whether an entry of this base name is a version-control directory, which is never
/// copied.
pub fn is_git_directory(name: &str) -> (r: bool)
    ensures
        r == is_git_name(name@),
{
    let n = name.unicode_len();
    if n < 4 {
        return false;
    }
    let r = name.get_char(0) == '.' && name.get_char(1) == 'g' && name.get_char(2) == 'i'
        && name.get_char(3) == 't';
    if r {
        assert(name@.subrange(0, 4) =~= git_prefix());
    } else {
        assert(name@.subrange(0, 4)[0] != '.' || name@.subrange(0, 4)[1] != 'g' || name@.subrange(
            0,
            4,
        )[2] != 'i' || name@.subrange(0, 4)[3] != 't');
    }
    r
}

/// Refuses a destination that already exists as a directory.
pub fn ensure_directory_does_not_exist(path: &str, exists_as_dir: bool) -> (r: Result<(), CopyError>)
    ensures
        match r {
            Ok(_) => !exists_as_dir,
            Err(CopyError::DestinationExists(p)) => exists_as_dir && p@ == path@,
        },
{
    if exists_as_dir {
        return Err(CopyError::DestinationExists(path.to_owned()));
    }
    Ok(())
}

/// The path of `name` inside the directory `dir`.
pub fn join_path(dir: &str, name: &str) -> (r: String)
    ensures
        r@ == join(dir@, name@),
{
    let n = dir.unicode_len();
    if n == 0 {
        return name.to_owned();
    }
    let mut s = dir.to_owned();
    if dir.get_char(n - 1) != '/' {
        s.append("/");
        proof {
            reveal_strlit("/");
        }
    }
    s.append(name);
    s
}

/// A copy of a template tree: where from, where to, and the values of the tokens.
pub struct CopyJob {
    pub source: String,
    pub destination: String,
    pub project_name: String,
    pub output_path: String,
}

/// Starts the copy of the template at `src` into `dst`, where the output-path token stands
/// for `dst` itself. Refused when `dst` already exists as a directory.
pub fn copy_directory(src: &str, dst: &str, project_name: &str, dst_exists_as_dir: bool) -> (r: Result<
    CopyJob,
    CopyError,
>)
    ensures
        match r {
            Ok(job) => {
                &&& !dst_exists_as_dir
                &&& job.source@ == src@
                &&& job.destination@ == dst@
                &&& job.project_name@ == project_name@
                &&& job.output_path@ == dst@
            },
            Err(CopyError::DestinationExists(p)) => dst_exists_as_dir && p@ == dst@,
        },
{
    ensure_directory_does_not_exist(dst, dst_exists_as_dir)?;
    Ok(
        CopyJob {
            source: src.to_owned(),
            destination: dst.to_owned(),
            project_name: project_name.to_owned(),
            output_path: dst.to_owned(),
        },
    )
}

/// An entry of a source directory, as listed.
pub struct DirEntryInfo {
    pub name: String,
    pub is_dir: bool,
}

/// One entry to copy: a directory to replicate, or a file to copy with its tokens replaced.
pub struct CopyStep {
    pub is_dir: bool,
    pub source: String,
    pub destination: String,
}

/// An entry that the copy leaves out: a version-control directory.
pub open spec fn skipped(is_dir: bool, name: Seq<char>) -> bool {
    is_dir && is_git_name(name)
}

/// The steps for the entries of `src`, in order, to be copied into `dst`.
pub open spec fn plan(src: Seq<char>, dst: Seq<char>, entries: Seq<DirEntryInfo>) -> Seq<
    (bool, Seq<char>, Seq<char>),
>
    decreases entries.len(),
{
    if entries.len() == 0 {
        Seq::empty()
    } else {
        let e = entries.last();
        let p = plan(src, dst, entries.drop_last());
        if skipped(e.is_dir, e.name@) {
            p
        } else {
            p.push((e.is_dir, join(src, e.name@), join(dst, e.name@)))
        }
    }
}

/// The abstract form of a list of steps.
pub open spec fn step_views(steps: Seq<CopyStep>) -> Seq<(bool, Seq<char>, Seq<char>)> {
    steps.map_values(|s: CopyStep| (s.is_dir, s.source@, s.destination@))
}

/// The steps that copy the listed entries of `src` into `dst`: each entry in turn, except
/// version-control directories.
pub fn plan_directory(src: &str, dst: &str, entries: &Vec<DirEntryInfo>) -> (r: Vec<CopyStep>)
    ensures
        step_views(r@) == plan(src@, dst@, entries@),
{
    let mut steps: Vec<CopyStep> = Vec::new();
    let mut i: usize = 0;
    while i < entries.len()
        invariant
            i <= entries@.len(),
            step_views(steps@) == plan(src@, dst@, entries@.subrange(0, i as int)),
        decreases entries.len() - i,
    {
        let e = &entries[i];
        assert(entries@.subrange(0, i + 1).drop_last() =~= entries@.subrange(0, i as int));
        if !(e.is_dir && is_git_directory(e.name.as_str())) {
            let step = CopyStep {
                is_dir: e.is_dir,
                source: join_path(src, e.name.as_str()),
                destination: join_path(dst, e.name.as_str()),
            };
            steps.push(step);
            assert(step_views(steps@) =~= plan(src@, dst@, entries@.subrange(0, i as int)).push(
                (e.is_dir, join(src@, e.name@), join(dst@, e.name@)),
            ));
        }
        i = i + 1;
    }
    assert(entries@.subrange(0, entries@.len() as int) =~= entries@);
    steps
}

/// A template tree as it stands on disk: files with their text, and directories.
pub enum TemplateNode {
    File { name: Seq<char>, contents: Seq<char> },
    Dir { name: Seq<char>, children: Seq<TemplateNode> },
}

/// The base name of a node.
pub open spec fn node_name(n: TemplateNode) -> Seq<char> {
    match n {
        TemplateNode::File { name, .. } => name,
        TemplateNode::Dir { name, .. } => name,
    }
}

#[via_fn]
proof fn copy_nodes_decreases(nodes: Seq<TemplateNode>, name: Seq<char>, out: Seq<char>) {
    broadcast use vstd::seq::axiom_seq_subrange_decreases, vstd::seq::axiom_seq_index_decreases;

    if nodes.len() > 0 {
        assert(decreases_to!(nodes => nodes.drop_last()));
        let last = nodes[nodes.len() - 1];
        assert(decreases_to!(nodes => last));
        if let TemplateNode::Dir { children, .. } = last {
            assert(decreases_to!(last => children));
        }
    }
}

/// What copying the entries `nodes` of a directory produces: every file with its tokens
/// replaced, every directory but the version-control ones copied in turn, in order.
pub open spec fn copy_nodes(nodes: Seq<TemplateNode>, name: Seq<char>, out: Seq<char>) -> Seq<
    TemplateNode,
>
    decreases nodes,
    via copy_nodes_decreases
{
    if nodes.len() == 0 {
        Seq::empty()
    } else {
        let kept = copy_nodes(nodes.drop_last(), name, out);
        match nodes[nodes.len() - 1] {
            TemplateNode::File { name: n, contents } => kept.push(
                TemplateNode::File { name: n, contents: substitute(contents, name, out) },
            ),
            TemplateNode::Dir { name: n, children } => if skipped(true, n) {
                kept
            } else {
                kept.push(TemplateNode::Dir { name: n, children: copy_nodes(children, name, out) })
            },
        }
    }
}

#[via_fn]
proof fn has_git_dir_decreases(nodes: Seq<TemplateNode>) {
    broadcast use vstd::seq::axiom_seq_subrange_decreases, vstd::seq::axiom_seq_index_decreases;

    if nodes.len() > 0 {
        assert(decreases_to!(nodes => nodes.drop_last()));
        let last = nodes[nodes.len() - 1];
        assert(decreases_to!(nodes => last));
        if let TemplateNode::Dir { children, .. } = last {
            assert(decreases_to!(last => children));
        }
    }
}

/// Some directory among `nodes`, at any depth, is a version-control directory.
pub open spec fn has_git_dir(nodes: Seq<TemplateNode>) -> bool
    decreases nodes,
    via has_git_dir_decreases
{
    if nodes.len() == 0 {
        false
    } else {
        has_git_dir(nodes.drop_last()) || match nodes[nodes.len() - 1] {
            TemplateNode::File { .. } => false,
            TemplateNode::Dir { name, children } => is_git_name(name) || has_git_dir(children),
        }
    }
}

proof fn lemma_has_git_dir_push(nodes: Seq<TemplateNode>, n: TemplateNode)
    ensures
        has_git_dir(nodes.push(n)) == (has_git_dir(nodes) || match n {
            TemplateNode::File { .. } => false,
            TemplateNode::Dir { name, children } => is_git_name(name) || has_git_dir(children),
        }),
{
    assert(nodes.push(n).drop_last() =~= nodes);
}

/// A copied tree holds no version-control directory at any depth.
pub proof fn lemma_copy_has_no_git_dir(nodes: Seq<TemplateNode>, name: Seq<char>, out: Seq<char>)
    ensures
        !has_git_dir(copy_nodes(nodes, name, out)),
    decreases nodes,
{
    broadcast use vstd::seq::axiom_seq_subrange_decreases, vstd::seq::axiom_seq_index_decreases;

    if nodes.len() > 0 {
        assert(decreases_to!(nodes => nodes.drop_last()));
        lemma_copy_has_no_git_dir(nodes.drop_last(), name, out);
        let kept = copy_nodes(nodes.drop_last(), name, out);
        let last = nodes[nodes.len() - 1];
        assert(decreases_to!(nodes => last));
        match last {
            TemplateNode::File { name: n, contents } => {
                lemma_has_git_dir_push(
                    kept,
                    TemplateNode::File { name: n, contents: substitute(contents, name, out) },
                );
            },
            TemplateNode::Dir { name: n, children } => {
                if !skipped(true, n) {
                    assert(decreases_to!(last => children));
                    lemma_copy_has_no_git_dir(children, name, out);
                    lemma_has_git_dir_push(
                        kept,
                        TemplateNode::Dir { name: n, children: copy_nodes(children, name, out) },
                    );
                }
            },
        }
    }
}

/// `entries` is how the directory holding `nodes` is listed: the same names and kinds, in
/// the same order.
pub open spec fn lists(entries: Seq<DirEntryInfo>, nodes: Seq<TemplateNode>) -> bool {
    &&& entries.len() == nodes.len()
    &&& forall|i: int|
        0 <= i < entries.len() ==> (#[trigger] entries[i]).name@ == node_name(nodes[i])
            && entries[i].is_dir == (nodes[i] is Dir)
}

/// The steps planned for a listed directory are the entries that its copy keeps, in order:
/// each goes to its own name inside the destination, as a directory exactly when it is one.
pub proof fn lemma_plan_follows_copy(
    src: Seq<char>,
    dst: Seq<char>,
    entries: Seq<DirEntryInfo>,
    nodes: Seq<TemplateNode>,
    name: Seq<char>,
    out: Seq<char>,
)
    requires
        lists(entries, nodes),
    ensures
        plan(src, dst, entries).len() == copy_nodes(nodes, name, out).len(),
        forall|k: int|
            0 <= k < plan(src, dst, entries).len() ==> {
                let c = #[trigger] copy_nodes(nodes, name, out)[k];
                &&& plan(src, dst, entries)[k].0 == (c is Dir)
                &&& plan(src, dst, entries)[k].1 == join(src, node_name(c))
                &&& plan(src, dst, entries)[k].2 == join(dst, node_name(c))
            },
    decreases entries.len(),
{
    if entries.len() > 0 {
        let n = entries.len() - 1;
        assert(lists(entries.drop_last(), nodes.drop_last())) by {
            assert forall|i: int| 0 <= i < entries.drop_last().len() implies (
            #[trigger] entries.drop_last()[i]).name@ == node_name(nodes.drop_last()[i])
                && entries.drop_last()[i].is_dir == (nodes.drop_last()[i] is Dir) by {
                assert(entries.drop_last()[i] == entries[i]);
                assert(nodes.drop_last()[i] == nodes[i]);
            }
        }
        lemma_plan_follows_copy(src, dst, entries.drop_last(), nodes.drop_last(), name, out);
        assert(entries[n].name@ == node_name(nodes[n]));
        assert(entries[n].is_dir == (nodes[n] is Dir));
    }
}

} // verus!
