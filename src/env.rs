//! Scope frames kept in an arena: a frame is addressed by its index and names
//! its parent by index. Bindings are only ever added by `declare_var`;
//! `assign_var` changes the nearest existing binding along the parent chain.
use vstd::prelude::*;
use crate::value::{Val, Value, values_view};

verus! {

/// One scope: parallel lists of names and values, and the enclosing frame.
#[derive(Debug)]
pub struct Frame {
    pub names: Vec<String>,
    pub vals: Vec<Value>,
    pub parent: Option<usize>,
}

/// The model of a frame.
pub struct FrameM {
    pub names: Seq<Seq<char>>,
    pub vals: Seq<Val>,
    pub parent: Option<usize>,
}

pub open spec fn names_view(v: Seq<String>) -> Seq<Seq<char>> {
    v.map_values(|s: String| s@)
}

impl View for Frame {
    type V = FrameM;

    open spec fn view(&self) -> FrameM {
        FrameM { names: names_view(self.names@), vals: values_view(self.vals@), parent: self.parent }
    }
}

pub open spec fn frames_view(v: Seq<Frame>) -> Seq<FrameM> {
    v.map_values(|f: Frame| f@)
}

/// Index of the first occurrence of `n` in `names` at or after `i`, or -1.
pub open spec fn slot_from(names: Seq<Seq<char>>, n: Seq<char>, i: int) -> int
    decreases names.len() - i,
{
    if i < 0 || i >= names.len() {
        -1
    } else if names[i] == n {
        i
    } else {
        slot_from(names, n, i + 1)
    }
}

/// The frame and slot that bind `n`, searching from frame `f` up its parents.
pub open spec fn find(frames: Seq<FrameM>, f: int, n: Seq<char>) -> Option<(int, int)>
    decreases f,
{
    if f < 0 || f >= frames.len() {
        None
    } else {
        let k = slot_from(frames[f].names, n, 0);
        if k >= 0 {
            Some((f, k))
        } else {
            match frames[f].parent {
                Some(p) => if p < f { find(frames, p as int, n) } else { None },
                None => None,
            }
        }
    }
}

/// The value bound to `n` as seen from frame `f`.
pub open spec fn lookup(frames: Seq<FrameM>, f: int, n: Seq<char>) -> Option<Val> {
    match find(frames, f, n) {
        Some((g, k)) => if k < frames[g].vals.len() { Some(frames[g].vals[k]) } else { None },
        None => None,
    }
}

/// The frames after assigning `v` to the nearest binding of `n`; `None` when unbound.
pub open spec fn assign(frames: Seq<FrameM>, f: int, n: Seq<char>, v: Val) -> Option<Seq<FrameM>> {
    match find(frames, f, n) {
        Some((g, k)) => if k < frames[g].vals.len() {
            Some(frames.update(g, FrameM { vals: frames[g].vals.update(k, v), ..frames[g] }))
        } else {
            None
        },
        None => None,
    }
}

/// The frames after binding `n` to `v` in frame `f`; `None` when `f` already binds it.
pub open spec fn declare(frames: Seq<FrameM>, f: int, n: Seq<char>, v: Val) -> Option<Seq<FrameM>> {
    if 0 <= f < frames.len() && slot_from(frames[f].names, n, 0) < 0 {
        Some(frames.update(f, FrameM {
            names: frames[f].names.push(n),
            vals: frames[f].vals.push(v),
            ..frames[f]
        }))
    } else {
        None
    }
}

fn slot(names: &Vec<String>, n: &String) -> (r: Option<usize>)
    ensures
        r matches Some(k) ==> k == slot_from(names_view(names@), n@, 0),
        r is None <==> slot_from(names_view(names@), n@, 0) < 0,
{
    let ghost nv = names_view(names@);
    let mut i: usize = 0;
    while i < names.len()
        invariant
            i <= names.len(),
            nv == names_view(names@),
            slot_from(nv, n@, i as int) == slot_from(nv, n@, 0),
        decreases names.len() - i,
    {
        if names[i].eq(n) {
            return Some(i);
        }
        i = i + 1;
    }
    None
}

/// Where `n` is bound, searching from frame `f` up the parent chain.
pub fn find_var(frames: &Vec<Frame>, f: usize, n: &String) -> (r: Option<(usize, usize)>)
    ensures
        r matches Some((g, k)) ==> find(frames_view(frames@), f as int, n@) == Some((g as int, k as int))
            && g < frames.len(),
        r is None <==> find(frames_view(frames@), f as int, n@) is None,
{
    let ghost fv = frames_view(frames@);
    let mut cur = f;
    while cur < frames.len()
        invariant
            fv == frames_view(frames@),
            find(fv, cur as int, n@) == find(fv, f as int, n@),
        decreases cur,
    {
        match slot(&frames[cur].names, n) {
            Some(k) => {
                return Some((cur, k));
            },
            None => {
                match frames[cur].parent {
                    Some(p) => {
                        if p < cur {
                            cur = p;
                        } else {
                            return None;
                        }
                    },
                    None => {
                        return None;
                    },
                }
            },
        }
    }
    None
}

/// The value bound to `n` as seen from frame `f`, copied out.
pub fn get_var(frames: &Vec<Frame>, f: usize, n: &String) -> (r: Option<Value>)
    ensures
        r matches Some(v) ==> lookup(frames_view(frames@), f as int, n@) == Some(v@),
        r is None <==> lookup(frames_view(frames@), f as int, n@) is None,
{
    match find_var(frames, f, n) {
        Some((g, k)) => {
            if k < frames[g].vals.len() {
                Some(frames[g].vals[k].copy())
            } else {
                None
            }
        },
        None => None,
    }
}

/// Changes the nearest binding of `n`; false (and nothing changed) when unbound.
pub fn assign_var(frames: &mut Vec<Frame>, f: usize, n: &String, v: Value) -> (r: bool)
    ensures
        r ==> assign(frames_view(old(frames)@), f as int, n@, v@) == Some(frames_view(final(frames)@)),
        !r ==> assign(frames_view(old(frames)@), f as int, n@, v@) is None && final(frames)@ == old(frames)@,
{
    match find_var(frames, f, n) {
        Some((g, k)) => {
            if k < frames[g].vals.len() {
                let ghost old_fv = frames_view(frames@);
                frames[g].vals.set(k, v);
                proof {
                    let expect = old_fv.update(g as int, FrameM { vals: old_fv[g as int].vals.update(k as int, v@), ..old_fv[g as int] });
                    assert(values_view(frames@[g as int].vals@) =~= old_fv[g as int].vals.update(k as int, v@));
                    assert(frames_view(frames@) =~= expect);
                }
                true
            } else {
                false
            }
        },
        None => false,
    }
}

/// Binds `n` to `v` in frame `f`; false (and nothing changed) when `f` already binds it.
pub fn declare_var(frames: &mut Vec<Frame>, f: usize, n: String, v: Value) -> (r: bool)
    ensures
        r ==> declare(frames_view(old(frames)@), f as int, n@, v@) == Some(frames_view(final(frames)@)),
        !r ==> declare(frames_view(old(frames)@), f as int, n@, v@) is None && final(frames)@ == old(frames)@,
{
    if f >= frames.len() {
        return false;
    }
    match slot(&frames[f].names, &n) {
        Some(_) => false,
        None => {
            let ghost old_fv = frames_view(frames@);
            let ghost nv = n@;
            let ghost vv = v@;
            frames[f].names.push(n);
            frames[f].vals.push(v);
            proof {
                let expect = old_fv.update(f as int, FrameM {
                    names: old_fv[f as int].names.push(nv),
                    vals: old_fv[f as int].vals.push(vv),
                    ..old_fv[f as int]
                });
                assert(names_view(frames@[f as int].names@) =~= old_fv[f as int].names.push(nv));
                assert(values_view(frames@[f as int].vals@) =~= old_fv[f as int].vals.push(vv));
                assert(frames_view(frames@) =~= expect);
            }
            true
        },
    }
}

} // verus!
