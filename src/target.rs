//! Recognising the game's process among the running ones.
use vstd::prelude::*;

verus! {

/// `needle` occurs in `s` at `i`.
pub open spec fn occurs_at(s: Seq<u8>, needle: Seq<u8>, i: int) -> bool {
    0 <= i && i + needle.len() <= s.len() && s.subrange(i, i + needle.len()) == needle
}

pub open spec fn game_name() -> Seq<u8> {
    seq![112u8, 117, 121, 111, 112, 117, 121, 111, 116, 101, 116, 114, 105, 115]
}

/// The command line of the game run through Wine: a `Z:` drive path that names the game.
pub open spec fn is_game_cmdline(s: Seq<u8>) -> bool {
    &&& occurs_at(s, seq![90u8, 58], 0)
    &&& exists|i: int| occurs_at(s, game_name(), i)
}

fn occurs(s: &[u8], needle: &[u8], i: usize) -> (r: bool)
    ensures
        r == occurs_at(s@, needle@, i as int),
{
    if i > s.len() || needle.len() > s.len() - i {
        return false;
    }
    let mut k: usize = 0;
    while k < needle.len()
        invariant
            i + needle@.len() <= s@.len(),
            s@.len() <= usize::MAX,
            k <= needle@.len(),
            forall|j: int| 0 <= j < k ==> s@[i + j] == #[trigger] needle@[j],
        decreases needle@.len() - k,
    {
        if s[i + k] != needle[k] {
            assert(s@.subrange(i as int, i + needle@.len())[k as int] != needle@[k as int]);
            return false;
        }
        k = k + 1;
    }
    assert(s@.subrange(i as int, i + needle@.len()) == needle@);
    true
}

/// Whether a process's command line, as `/proc/<pid>/cmdline` gives it, is the game's.
pub fn is_game(cmdline: &[u8]) -> (r: bool)
    ensures
        r == is_game_cmdline(cmdline@),
{
    let drive: [u8; 2] = [90, 58];
    let name: [u8; 14] = [112, 117, 121, 111, 112, 117, 121, 111, 116, 101, 116, 114, 105, 115];
    assert(drive@ == seq![90u8, 58]);
    assert(name@ == game_name());
    if !occurs(cmdline, drive.as_slice(), 0) {
        return false;
    }
    let mut i: usize = 0;
    while i < cmdline.len()
        invariant
            i <= cmdline@.len(),
            name@ == game_name(),
            occurs_at(cmdline@, seq![90u8, 58], 0),
            forall|j: int| 0 <= j < i ==> !occurs_at(cmdline@, game_name(), j),
        decreases cmdline@.len() - i,
    {
        if occurs(cmdline, name.as_slice(), i) {
            assert(occurs_at(cmdline@, game_name(), i as int));
            return true;
        }
        i = i + 1;
    }
    assert forall|j: int| !occurs_at(cmdline@, game_name(), j) by {
        if 0 <= j < i {
        }
    }
    false
}

/// The file name of the game's executable, `puyopuyotetris.exe`.
pub open spec fn game_module() -> Seq<u8> {
    game_name() + seq![46u8, 101, 120, 101]
}

/// Whether the base name of a process's main module is the game's executable.
pub fn is_game_module(name: &[u8]) -> (r: bool)
    ensures
        r == (name@ == game_module()),
{
    let module: [u8; 18] = [
        112, 117, 121, 111, 112, 117, 121, 111, 116, 101, 116, 114, 105, 115, 46, 101, 120, 101,
    ];
    assert(module@ == game_module());
    if name.len() != 18 {
        return false;
    }
    let r = occurs(name, module.as_slice(), 0);
    assert(r ==> name@ == name@.subrange(0, 18));
    assert(name@.subrange(0, 18) == name@);
    r
}

} // verus!
