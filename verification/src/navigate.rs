//! The interactive directory navigator: a loop over prompt rounds that
//! only ever descends, so the chosen directory is always the base extended
//! by the picked child names.  The caller performs the listing and the
//! prompt; the state, the transitions and the resulting relative path live
//! here.  A pure tree model shows the whole dialogue terminates on every
//! finite tree and returns exactly the path the choices name.

use vstd::prelude::*;
use vstd::string::StringExecFns;
use crate::text::join_texts;
use crate::text::join_with;

verus! {

/// The navigator's position: the child names chosen so far, relative to
/// the base directory.  Navigation only ever appends a segment, so the
/// current directory never escapes the base (there is no parent step).
pub struct NavState {
    pub segments: Vec<String>,
}

impl NavState {
    /// Starts at the base directory itself.
    pub fn at_base() -> (r: Self)
        ensures
            r.segments@.len() == 0,
    {
        NavState { segments: Vec::new() }
    }

    /// The chosen directory relative to the base: the segments joined by
    /// `/`, empty when the base itself was chosen.
    pub fn relative_path(&self) -> (r: String)
        ensures
            r@ == join_texts(self.segments.deep_view(), "/"@),
    {
        join_with(&self.segments, "/")
    }

    /// The position line shown before each prompt: the base label with a
    /// trailing slash, and below the base also the relative path with a
    /// trailing slash.
    pub fn display_path(&self, base_label: &str) -> (r: String)
        ensures
            self.segments@.len() == 0 ==> r@ == base_label@ + "/"@,
            self.segments@.len() > 0 ==> r@ == base_label@ + "/"@ + join_texts(
                self.segments.deep_view(),
                "/"@,
            ) + "/"@,
    {
        let mut r = base_label.to_owned();
        r.append("/");
        if self.segments.len() > 0 {
            let rel = join_with(&self.segments, "/");
            r.append(rel.as_str());
            r.append("/");
        }
        r
    }

    /// One prompt round.  The option list shown to the user holds the
    /// "done here" entry first and then `children` in order, so
    /// `selection` 0 finishes at the current directory and any other
    /// selection descends into the named child.
    pub fn apply_selection(&mut self, children: &Vec<String>, selection: usize) -> (done: bool)
        requires
            selection <= children@.len(),
        ensures
            done == (selection == 0),
            selection == 0 ==> final(self).segments@ == old(self).segments@,
            selection > 0 ==> final(self).segments.deep_view() == old(
                self,
            ).segments.deep_view().push(children.deep_view()[selection - 1]),
    {
        if selection == 0 {
            true
        } else {
            let ghost before = self.segments.deep_view();
            self.segments.push(children[selection - 1].clone());
            proof {
                assert(self.segments.deep_view() =~= before.push(
                    children.deep_view()[selection - 1],
                ));
            }
            false
        }
    }
}

/// A directory below a node of the tree model: its name and what lies
/// below it.
pub struct Subdir {
    pub name: String,
    pub tree: DirTree,
}

/// A finite directory tree as pure data: the children of one node, in
/// prompt order.
pub struct DirTree {
    pub children: Vec<Subdir>,
}

/// The child names the navigator picks when the user answers the prompts
/// over `tree` with `choices`: descend for every selection that names a
/// child, stop at the first "done" selection (0), at a directory without
/// children, or when no choices remain.
pub open spec fn chosen_segments(tree: DirTree, choices: Seq<int>) -> Seq<Seq<char>>
    decreases tree,
{
    if tree.children@.len() == 0 || choices.len() == 0 {
        Seq::empty()
    } else if choices[0] < 1 || choices[0] > tree.children@.len() {
        Seq::empty()
    } else {
        seq![tree.children@[choices[0] - 1].name@] + chosen_segments(
            tree.children@[choices[0] - 1].tree,
            choices.drop_first(),
        )
    }
}

/// The selections as mathematical integers.
pub open spec fn selections_of(choices: Seq<usize>) -> Seq<int> {
    choices.map_values(|c: usize| c as int)
}

/// Walks the tree as the choices direct, appending the picked child names
/// to `out`.  `pos` is the next choice to consume.
fn collect_segments(tree: &DirTree, choices: &Vec<usize>, pos: usize, out: &mut Vec<String>)
    requires
        pos <= choices@.len(),
    ensures
        final(out).deep_view() == old(out).deep_view() + chosen_segments(
            *tree,
            selections_of(choices@).skip(pos as int),
        ),
    decreases *tree,
{
    let ghost rest = selections_of(choices@).skip(pos as int);
    if tree.children.len() == 0 || pos == choices.len() {
        proof {
            assert(final(out).deep_view() =~= old(out).deep_view() + chosen_segments(
                *tree,
                rest,
            ));
        }
        return ;
    }
    let c = choices[pos];
    if c < 1 || c > tree.children.len() {
        proof {
            assert(rest[0] == c as int);
            assert(final(out).deep_view() =~= old(out).deep_view() + chosen_segments(
                *tree,
                rest,
            ));
        }
        return ;
    }
    let ghost mid = out.deep_view();
    let child = &tree.children[c - 1];
    out.push(child.name.clone());
    collect_segments(&child.tree, choices, pos + 1, out);
    proof {
        assert(rest[0] == c as int);
        assert(rest.drop_first() =~= selections_of(choices@).skip(pos as int + 1));
        assert(mid.push(child.name@) =~= mid + seq![child.name@]);
        assert(out.deep_view() =~= mid + seq![child.name@] + chosen_segments(
            child.tree,
            rest.drop_first(),
        ));
        assert(mid + seq![child.name@] + chosen_segments(child.tree, rest.drop_first()) =~= mid + (
        seq![child.name@] + chosen_segments(child.tree, rest.drop_first())));
    }
}

/// Runs the whole navigation dialogue over a pure directory tree: for any
/// finite tree and any choices it terminates and returns exactly the
/// relative path the descent sequence names, `/`-joined.  A tree without
/// children yields the empty path at once, and so does choosing "done"
/// on the first prompt.
pub fn navigate_tree(tree: &DirTree, choices: &Vec<usize>) -> (r: String)
    ensures
        r@ == join_texts(chosen_segments(*tree, selections_of(choices@)), "/"@),
{
    let mut segments: Vec<String> = Vec::new();
    proof {
        assert(selections_of(choices@).skip(0) =~= selections_of(choices@));
    }
    collect_segments(tree, choices, 0, &mut segments);
    proof {
        assert(segments.deep_view() =~= chosen_segments(*tree, selections_of(choices@)));
    }
    join_with(&segments, "/")
}

/// Choosing "done here" on the first prompt ends navigation at the base:
/// the relative path is empty.
pub proof fn lemma_done_at_base(tree: DirTree, choices: Seq<int>)
    requires
        choices.len() > 0,
        choices[0] == 0,
    ensures
        chosen_segments(tree, choices) == Seq::<Seq<char>>::empty(),
{
}

/// A directory without subdirectories ends navigation at once, whatever
/// choices would have followed: its own relative path is returned and no
/// prompt is owed.
pub proof fn lemma_leaf_ends_navigation(tree: DirTree, choices: Seq<int>)
    requires
        tree.children@.len() == 0,
    ensures
        chosen_segments(tree, choices) == Seq::<Seq<char>>::empty(),
{
}

} // verus!
