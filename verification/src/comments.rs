use vstd::prelude::*;

verus! {

/// Whether a comment is a line comment (`// ...`) or a block comment
/// (`/* ... */`).
#[derive(Clone, Copy, Debug, PartialEq, Eq, Structural)]
pub enum CommentKind {
    Line,
    Block,
}

/// One source comment, with its text (the delimiters stripped) and its byte
/// span in the source text.
#[derive(Debug)]
pub struct Comment {
    pub kind: CommentKind,
    pub text: String,
    pub lo: u32,
    pub hi: u32,
}

impl Clone for Comment {
    fn clone(&self) -> (r: Self)
        ensures
            r == *self,
    {
        Comment { kind: self.kind, text: self.text.clone(), lo: self.lo, hi: self.hi }
    }
}

/// All comments of one source, attached to the byte position of the token
/// they lead or trail. Built once while parsing and read-only afterwards,
/// so later readers need no exclusive access.
pub struct MultiThreadedComments {
    leading: Vec<(u32, Vec<Comment>)>,
    trailing: Vec<(u32, Vec<Comment>)>,
}

/// The comments of `groups`, in group order.
pub open spec fn groups_comments(groups: Seq<(u32, Vec<Comment>)>) -> Seq<Comment>
    decreases groups.len(),
{
    if groups.len() == 0 {
        Seq::empty()
    } else {
        groups[0].1@ + groups_comments(groups.drop_first())
    }
}

/// The plain content of one comment: whether it is a line comment, its
/// text, and its byte span.
pub open spec fn comment_data(c: Comment) -> (bool, Seq<char>, u32, u32) {
    (c.kind == CommentKind::Line, c.text@, c.lo, c.hi)
}

/// Whether the position-keyed groups `groups` hold exactly the comments of
/// the map `m`: no position repeats, every group's comments are the map's
/// entry for its position, and every position of the map has a group.
pub open spec fn groups_match_map(
    groups: Seq<(u32, Vec<Comment>)>,
    m: Map<u32, Seq<(bool, Seq<char>, u32, u32)>>,
) -> bool {
    &&& forall|i: int, j: int| 0 <= i < j < groups.len() ==> (#[trigger] groups[i]).0 != (#[trigger] groups[j]).0
    &&& forall|i: int|
        0 <= i < groups.len() ==> m.dom().contains((#[trigger] groups[i]).0) && groups[i].1@.map_values(
            |c: Comment| comment_data(c),
        ) == m[groups[i].0]
    &&& forall|k: u32|
        m.dom().contains(k) ==> exists|i: int| 0 <= i < groups.len() && (#[trigger] groups[i]).0 == k
}

/// The comments attached to position `pos` in `groups`: those of the first
/// group carrying that position, if any.
pub open spec fn groups_at(groups: Seq<(u32, Vec<Comment>)>, pos: u32) -> Option<Seq<Comment>>
    decreases groups.len(),
{
    if groups.len() == 0 {
        None
    } else if groups[0].0 == pos {
        Some(groups[0].1@)
    } else {
        groups_at(groups.drop_first(), pos)
    }
}

proof fn lemma_groups_comments_push(groups: Seq<(u32, Vec<Comment>)>, g: (u32, Vec<Comment>))
    ensures
        groups_comments(groups.push(g)) == groups_comments(groups) + g.1@,
    decreases groups.len(),
{
    if groups.len() == 0 {
        assert(groups.push(g).drop_first() =~= Seq::<(u32, Vec<Comment>)>::empty());
        assert(groups_comments(groups.push(g).drop_first()) =~= Seq::<Comment>::empty());
        assert(groups.push(g)[0] == g);
        assert(groups_comments(groups.push(g)) =~= g.1@);
        assert(groups_comments(groups) + g.1@ =~= g.1@);
    } else {
        assert(groups.push(g).drop_first() =~= groups.drop_first().push(g));
        lemma_groups_comments_push(groups.drop_first(), g);
        assert(groups_comments(groups.push(g)) =~= groups_comments(groups) + g.1@);
    }
}

impl MultiThreadedComments {
    /// The leading comment groups, as spoken of by contracts.
    pub closed spec fn spec_leading(&self) -> Seq<(u32, Vec<Comment>)> {
        self.leading@
    }

    /// The trailing comment groups, as spoken of by contracts.
    pub closed spec fn spec_trailing(&self) -> Seq<(u32, Vec<Comment>)> {
        self.trailing@
    }

    /// Assembles the shareable comment index from the two position-keyed
    /// group lists that lexing produced.
    pub fn from_groups(leading: Vec<(u32, Vec<Comment>)>, trailing: Vec<(u32, Vec<Comment>)>) -> (r:
        Self)
        ensures
            r.spec_leading() == leading@,
            r.spec_trailing() == trailing@,
    {
        MultiThreadedComments { leading, trailing }
    }

    /// The comments leading the token at byte position `pos`, if any.
    pub fn get_leading(&self, pos: u32) -> (r: Option<&Vec<Comment>>)
        ensures
            match r {
                Some(v) => groups_at(self.spec_leading(), pos) == Some(v@),
                None => groups_at(self.spec_leading(), pos) is None,
            },
    {
        let mut i: usize = 0;
        assert(self.leading@.skip(0) =~= self.leading@);
        while i < self.leading.len()
            invariant
                i <= self.leading@.len(),
                groups_at(self.leading@, pos) == groups_at(self.leading@.skip(i as int), pos),
            decreases self.leading@.len() - i,
        {
            if self.leading[i].0 == pos {
                assert(self.leading@.skip(i as int)[0] == self.leading@[i as int]);
                return Some(&self.leading[i].1);
            }
            assert(self.leading@.skip(i as int).drop_first() =~= self.leading@.skip(i + 1));
            i = i + 1;
        }
        assert(self.leading@.skip(i as int) =~= Seq::empty());
        None
    }

    /// Every comment of the source: the leading groups' comments followed by
    /// the trailing groups' comments, in group order.
    pub fn get_vec(&self) -> (r: Vec<Comment>)
        ensures
            r@ == groups_comments(self.spec_leading()) + groups_comments(self.spec_trailing()),
    {
        let mut out: Vec<Comment> = Vec::new();
        push_groups(&mut out, &self.leading);
        push_groups(&mut out, &self.trailing);
        out
    }
}

/// Appends every comment of `groups` to `out`, in group order.
fn push_groups(out: &mut Vec<Comment>, groups: &Vec<(u32, Vec<Comment>)>)
    ensures
        final(out)@ == old(out)@ + groups_comments(groups@),
{
    let ghost orig = out@;
    let mut i: usize = 0;
    while i < groups.len()
        invariant
            i <= groups@.len(),
            out@ == orig + groups_comments(groups@.take(i as int)),
        decreases groups@.len() - i,
    {
        let group = &groups[i];
        let mut j: usize = 0;
        while j < group.1.len()
            invariant
                j <= group.1@.len(),
                group == groups@[i as int],
                i < groups@.len(),
                out@ == orig + groups_comments(groups@.take(i as int)) + group.1@.take(j as int),
            decreases group.1@.len() - j,
        {
            out.push(group.1[j].clone());
            assert(group.1@.take(j + 1) =~= group.1@.take(j as int).push(group.1@[j as int]));
            assert(out@ =~= orig + groups_comments(groups@.take(i as int)) + group.1@.take(j + 1));
            j = j + 1;
        }
        proof {
            assert(group.1@.take(group.1@.len() as int) =~= group.1@);
            assert(groups@.take(i + 1) =~= groups@.take(i as int).push(groups@[i as int]));
            lemma_groups_comments_push(groups@.take(i as int), groups@[i as int]);
            assert(out@ =~= orig + groups_comments(groups@.take(i + 1)));
        }
        i = i + 1;
    }
    assert(groups@.take(groups@.len() as int) =~= groups@);
}

} // verus!
