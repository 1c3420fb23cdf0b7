//! The panel that shows the keys waiting in the input stream.

use vstd::prelude::*;

verus! {

/// The state of the input buffer panel.
#[derive(Debug, PartialEq, Eq, Clone, Copy)]
pub struct KeybufferWidgetState {
    pub focused: bool,
}

/// How the panel shows one key: a line feed as `\n`, a tab as `\t`, every
/// other character as itself.
pub open spec fn shown_key(key: char) -> Seq<char> {
    if key == '\n' {
        seq!['\\', 'n']
    } else if key == '\t' {
        seq!['\\', 't']
    } else {
        seq![key]
    }
}

/// How the panel shows the keys: each as `shown_key` has it, in order.
pub open spec fn shown_keys(keys: Seq<char>) -> Seq<char>
    decreases keys.len(),
{
    if keys.len() == 0 {
        Seq::empty()
    } else {
        shown_keys(keys.drop_last()) + shown_key(keys.last())
    }
}

/// The text that the panel shows for `keys`.
pub fn display_keys(keys: &str) -> (text: String)
    ensures
        text@ == shown_keys(keys@),
{
    let mut text = String::new();
    let length = keys.unicode_len();
    let mut i: usize = 0;
    assert(keys@.take(0) =~= Seq::<char>::empty());
    while i < length
        invariant
            i <= length,
            length == keys@.len(),
            text@ == shown_keys(keys@.take(i as int)),
        decreases length - i,
    {
        let key = keys.get_char(i);
        let ghost before = text@;
        if key == '\n' {
            text.push('\\');
            text.push('n');
        } else if key == '\t' {
            text.push('\\');
            text.push('t');
        } else {
            text.push(key);
        }
        proof {
            let longer = keys@.take(i + 1);
            assert(longer.drop_last() =~= keys@.take(i as int));
            assert(longer.last() == key);
            assert(text@ =~= before + shown_key(key));
        }
        i = i + 1;
    }
    assert(keys@.take(length as int) =~= keys@);
    text
}

} // verus!
