use vstd::prelude::*;
use crate::command::{BlendMode, Command, CommandList};

verus! {

/// A unit of work for one render pass: a run of plain drawing commands, or a
/// single blend group, which needs pass boundaries of its own.
#[derive(Debug)]
pub enum Chunk {
    Draw(Vec<Command>),
    Blend(CommandList, BlendMode),
}

/// What a chunk holds, as mathematical values.
pub enum ChunkView {
    Draw(Seq<Command>),
    Blend(CommandList, BlendMode),
}

impl Chunk {
    pub open spec fn view(&self) -> ChunkView {
        match self {
            Chunk::Draw(v) => ChunkView::Draw(v@),
            Chunk::Blend(l, m) => ChunkView::Blend(*l, *m),
        }
    }
}

pub open spec fn is_blend(c: Command) -> bool {
    c is Blend
}

/// The commands a chunk stands for.
pub open spec fn chunk_commands(c: ChunkView) -> Seq<Command> {
    match c {
        ChunkView::Draw(s) => s,
        ChunkView::Blend(l, m) => seq![Command::Blend(l, m)],
    }
}

/// The chunks' commands, concatenated in order.
pub open spec fn flatten(chunks: Seq<ChunkView>) -> Seq<Command>
    decreases chunks.len(),
{
    if chunks.len() == 0 {
        Seq::empty()
    } else {
        flatten(chunks.drop_last()) + chunk_commands(chunks.last())
    }
}

/// Scan state after `cmds`: the chunks emitted so far and the pending run of
/// non-blend commands.
pub open spec fn scan(cmds: Seq<Command>) -> (Seq<ChunkView>, Seq<Command>)
    decreases cmds.len(),
{
    if cmds.len() == 0 {
        (Seq::empty(), Seq::empty())
    } else {
        let (done, pending) = scan(cmds.drop_last());
        match cmds.last() {
            Command::Blend(l, m) => {
                let flushed = if pending.len() > 0 {
                    done.push(ChunkView::Draw(pending))
                } else {
                    done
                };
                (flushed.push(ChunkView::Blend(l, m)), Seq::empty())
            },
            c => (done, pending.push(c)),
        }
    }
}

/// The chunking of a command sequence: every blend command on its own, the
/// maximal runs of other commands between them as draw chunks.
pub open spec fn chunks_of(cmds: Seq<Command>) -> Seq<ChunkView> {
    let (done, pending) = scan(cmds);
    if pending.len() > 0 {
        done.push(ChunkView::Draw(pending))
    } else {
        done
    }
}

/// No draw chunk is empty or holds a blend command.
pub open spec fn draws_are_plain(chunks: Seq<ChunkView>) -> bool {
    forall|i: int|
        0 <= i < chunks.len() ==> match #[trigger] chunks[i] {
            ChunkView::Draw(s) => s.len() > 0 && forall|j: int|
                0 <= j < s.len() ==> !is_blend(#[trigger] s[j]),
            ChunkView::Blend(_, _) => true,
        }
}

proof fn lemma_flatten_push(chunks: Seq<ChunkView>, c: ChunkView)
    ensures
        flatten(chunks.push(c)) == flatten(chunks) + chunk_commands(c),
{
    assert(chunks.push(c).drop_last() =~= chunks);
}

proof fn lemma_scan(cmds: Seq<Command>)
    ensures
        flatten(scan(cmds).0) + scan(cmds).1 == cmds,
        draws_are_plain(scan(cmds).0),
        forall|j: int| 0 <= j < scan(cmds).1.len() ==> !is_blend(#[trigger] scan(cmds).1[j]),
    decreases cmds.len(),
{
    if cmds.len() > 0 {
        let prev = cmds.drop_last();
        lemma_scan(prev);
        let (done, pending) = scan(prev);
        match cmds.last() {
            Command::Blend(l, m) => {
                let flushed = if pending.len() > 0 {
                    lemma_flatten_push(done, ChunkView::Draw(pending));
                    done.push(ChunkView::Draw(pending))
                } else {
                    assert(pending =~= Seq::<Command>::empty());
                    done
                };
                assert(flatten(flushed) =~= flatten(done) + pending);
                lemma_flatten_push(flushed, ChunkView::Blend(l, m));
                assert(flatten(scan(cmds).0) + scan(cmds).1 =~= cmds);
                let r = flushed.push(ChunkView::Blend(l, m));
                assert forall|i: int| 0 <= i < r.len() implies match #[trigger] r[i] {
                    ChunkView::Draw(s) => s.len() > 0 && forall|j: int|
                        0 <= j < s.len() ==> !is_blend(#[trigger] s[j]),
                    ChunkView::Blend(_, _) => true,
                } by {
                    if i < done.len() {
                        assert(r[i] == done[i]);
                    }
                }
            },
            c => {
                assert(cmds =~= prev.push(c));
                assert(flatten(done) + pending.push(c) =~= (flatten(done) + pending).push(c));
            },
        }
    }
}

/// Chunking keeps every command, in order, and isolates blends: the chunks'
/// commands concatenated give back the input, and no draw chunk is empty or
/// holds a blend command.
pub proof fn lemma_chunks_preserve_order(cmds: Seq<Command>)
    ensures
        flatten(chunks_of(cmds)) == cmds,
        draws_are_plain(chunks_of(cmds)),
{
    lemma_scan(cmds);
    let (done, pending) = scan(cmds);
    if pending.len() > 0 {
        lemma_flatten_push(done, ChunkView::Draw(pending));
        let r = done.push(ChunkView::Draw(pending));
        assert forall|i: int| 0 <= i < r.len() implies match #[trigger] r[i] {
            ChunkView::Draw(s) => s.len() > 0 && forall|j: int|
                0 <= j < s.len() ==> !is_blend(#[trigger] s[j]),
            ChunkView::Blend(_, _) => true,
        } by {
            if i < done.len() {
                assert(r[i] == done[i]);
            }
        }
    } else {
        assert(pending =~= Seq::<Command>::empty());
        assert(flatten(done) + pending =~= flatten(done));
    }
}

/// Splits `commands` so that every blend stands in a chunk of its own.
pub fn chunk_blends(commands: Vec<Command>) -> (r: Vec<Chunk>)
    ensures
        r@.map_values(|c: Chunk| c.view()) == chunks_of(commands@),
{
    let ghost all = commands@;
    let mut result: Vec<Chunk> = Vec::new();
    let mut current: Vec<Command> = Vec::new();
    for command in it: commands
        invariant
            it.seq() == all,
            result@.map_values(|c: Chunk| c.view()) == scan(all.take(it.index() as int)).0,
            current@ == scan(all.take(it.index() as int)).1,
    {
        let ghost prefix = all.take(it.index() + 1);
        proof {
            assert(prefix.drop_last() =~= all.take(it.index() as int));
        }
        match command {
            Command::Blend(commands, blend_mode) => {
                if current.len() > 0 {
                    result.push(Chunk::Draw(current));
                    current = Vec::new();
                }
                result.push(Chunk::Blend(commands, blend_mode));
            },
            c => {
                current.push(c);
            },
        }
        proof {
            assert(result@.map_values(|c: Chunk| c.view()) =~= scan(prefix).0);
        }
    }
    if current.len() > 0 {
        result.push(Chunk::Draw(current));
    }
    proof {
        assert(all.take(all.len() as int) =~= all);
        assert(result@.map_values(|c: Chunk| c.view()) =~= chunks_of(all));
    }
    result
}

proof fn lemma_scan_append(x: Seq<Command>, post: Seq<Command>)
    requires
        scan(x).1.len() == 0,
    ensures
        scan(x + post) == (scan(x).0 + scan(post).0, scan(post).1),
    decreases post.len(),
{
    if post.len() == 0 {
        assert(x + post =~= x);
        assert(scan(x).0 + scan(post).0 =~= scan(x).0);
        assert(scan(x).1 =~= scan(post).1);
    } else {
        let prev = post.drop_last();
        lemma_scan_append(x, prev);
        assert((x + post).drop_last() =~= x + prev);
        assert((x + post).last() == post.last());
        let (d, p) = scan(prev);
        let s0 = scan(x).0;
        match post.last() {
            Command::Blend(l, m) => {
                if p.len() > 0 {
                    assert((s0 + d).push(ChunkView::Draw(p)).push(ChunkView::Blend(l, m)) =~= s0 + d.push(
                        ChunkView::Draw(p),
                    ).push(ChunkView::Blend(l, m)));
                } else {
                    assert((s0 + d).push(ChunkView::Blend(l, m)) =~= s0 + d.push(ChunkView::Blend(l, m)));
                }
            },
            c => {},
        }
    }
}

/// Chunking around a blend command: the chunks before it, the blend's own
/// chunk, then the chunks after it.
pub proof fn lemma_chunks_around_blend(pre: Seq<Command>, list: CommandList, mode: BlendMode, post: Seq<Command>)
    ensures
        chunks_of(pre.push(Command::Blend(list, mode)) + post) == chunks_of(pre).push(
            ChunkView::Blend(list, mode),
        ) + chunks_of(post),
{
    let x = pre.push(Command::Blend(list, mode));
    assert(x.drop_last() =~= pre);
    assert(scan(x).1.len() == 0);
    assert(scan(x).0 == chunks_of(pre).push(ChunkView::Blend(list, mode)));
    lemma_scan_append(x, post);
}

/// The blend commands of a sequence, in order.
pub open spec fn blend_commands(cmds: Seq<Command>) -> Seq<Command>
    decreases cmds.len(),
{
    if cmds.len() == 0 {
        Seq::empty()
    } else {
        blend_commands(cmds.drop_last()) + if is_blend(cmds.last()) {
            seq![cmds.last()]
        } else {
            Seq::empty()
        }
    }
}

/// The blend commands that the blend chunks stand for, in order.
pub open spec fn chunk_blend_commands(chunks: Seq<ChunkView>) -> Seq<Command>
    decreases chunks.len(),
{
    if chunks.len() == 0 {
        Seq::empty()
    } else {
        chunk_blend_commands(chunks.drop_last()) + match chunks.last() {
            ChunkView::Blend(l, m) => seq![Command::Blend(l, m)],
            ChunkView::Draw(_) => Seq::empty(),
        }
    }
}

proof fn lemma_blend_commands_append(a: Seq<Command>, b: Seq<Command>)
    ensures
        blend_commands(a + b) == blend_commands(a) + blend_commands(b),
    decreases b.len(),
{
    if b.len() == 0 {
        assert(a + b =~= a);
        assert(blend_commands(a) + blend_commands(b) =~= blend_commands(a));
    } else {
        lemma_blend_commands_append(a, b.drop_last());
        assert((a + b).drop_last() =~= a + b.drop_last());
        assert((a + b).last() == b.last());
        let tail = if is_blend(b.last()) {
            seq![b.last()]
        } else {
            Seq::<Command>::empty()
        };
        assert(blend_commands(a) + blend_commands(b.drop_last()) + tail =~= blend_commands(a) + (
        blend_commands(b.drop_last()) + tail));
    }
}

proof fn lemma_no_blend_commands(s: Seq<Command>)
    requires
        forall|j: int| 0 <= j < s.len() ==> !is_blend(#[trigger] s[j]),
    ensures
        blend_commands(s) == Seq::<Command>::empty(),
    decreases s.len(),
{
    if s.len() > 0 {
        let p = s.drop_last();
        assert forall|j: int| 0 <= j < p.len() implies !is_blend(#[trigger] p[j]) by {
            assert(p[j] == s[j]);
        }
        lemma_no_blend_commands(p);
        assert(!is_blend(s[s.len() - 1]));
        assert(blend_commands(s) =~= Seq::<Command>::empty());
    }
}

proof fn lemma_flatten_blend_commands(chunks: Seq<ChunkView>)
    requires
        draws_are_plain(chunks),
    ensures
        blend_commands(flatten(chunks)) == chunk_blend_commands(chunks),
    decreases chunks.len(),
{
    if chunks.len() > 0 {
        let p = chunks.drop_last();
        assert forall|i: int| 0 <= i < p.len() implies match #[trigger] p[i] {
            ChunkView::Draw(s) => s.len() > 0 && forall|j: int|
                0 <= j < s.len() ==> !is_blend(#[trigger] s[j]),
            ChunkView::Blend(_, _) => true,
        } by {
            assert(p[i] == chunks[i]);
        }
        lemma_flatten_blend_commands(p);
        lemma_blend_commands_append(flatten(p), chunk_commands(chunks.last()));
        let last = chunks.last();
        assert(last == chunks[chunks.len() - 1]);
        match last {
            ChunkView::Draw(s) => {
                lemma_no_blend_commands(s);
                assert(chunk_blend_commands(p) + Seq::<Command>::empty() =~= chunk_blend_commands(p));
            },
            ChunkView::Blend(l, m) => {
                let one = seq![Command::Blend(l, m)];
                assert(one.drop_last() =~= Seq::<Command>::empty());
                assert(blend_commands(one.drop_last()) == Seq::<Command>::empty());
                assert(is_blend(one.last()));
                assert(blend_commands(one) =~= one);
                assert(chunk_blend_commands(p) + one =~= chunk_blend_commands(chunks));
            },
        }
    }
}

/// Every blend command becomes a chunk of its own: the blend chunks, in
/// order, are exactly the input's blend commands, in order.
pub proof fn lemma_blends_keep_their_order(cmds: Seq<Command>)
    ensures
        chunk_blend_commands(chunks_of(cmds)) == blend_commands(cmds),
{
    lemma_chunks_preserve_order(cmds);
    lemma_flatten_blend_commands(chunks_of(cmds));
}

} // verus!
