//! The sockets of an item, written as text.
use vstd::prelude::*;
use crate::input::Socket;

verus! {

/// The group that socket `k` is compared with: that of the socket before it,
/// and -1 for the first socket.
pub open spec fn previous_group(s: Seq<Socket>, k: int) -> i16 {
    if k == 0 {
        -1i16
    } else {
        s[k - 1].group
    }
}

/// `-` where socket `k` is linked to the one before it, `|` where it opens a
/// new group.
pub open spec fn separator(s: Seq<Socket>, k: int) -> Seq<char> {
    if s[k].group == previous_group(s, k) {
        seq!['-']
    } else {
        seq!['|']
    }
}

/// For each socket its separator, then its colour.
pub open spec fn socket_groups_text(s: Seq<Socket>) -> Seq<char>
    decreases s.len(),
{
    if s.len() == 0 {
        Seq::empty()
    } else {
        socket_groups_text(s.drop_last()) + separator(s, s.len() - 1) + s.last().attribute@
    }
}

/// The sockets as text, such as `|D-D-S|I-D|`: each group opened by `|`,
/// linked sockets joined by `-`, and the whole closed by `|`; no text for
/// an item without sockets.
pub open spec fn sockets_text(s: Seq<Socket>) -> Seq<char> {
    if s.len() == 0 {
        Seq::empty()
    } else {
        socket_groups_text(s) + seq!['|']
    }
}

/// How many sockets in a row up to and including socket `k` share its group.
pub open spec fn link_run(s: Seq<Socket>, k: int) -> int
    decreases k,
{
    if k <= 0 {
        1
    } else if s[k].group == s[k - 1].group {
        link_run(s, k - 1) + 1
    } else {
        1
    }
}

/// The longest run of linked sockets among the first `n` sockets.
pub open spec fn max_link(s: Seq<Socket>, n: int) -> int
    decreases n,
{
    if n <= 0 {
        0
    } else if link_run(s, n - 1) > max_link(s, n - 1) {
        link_run(s, n - 1)
    } else {
        max_link(s, n - 1)
    }
}

/// The socket count as the parser reports it: one more than the number of
/// sockets, and 0 for an item without sockets.
pub open spec fn socket_number(n: int) -> int {
    if n == 0 {
        0
    } else {
        n + 1
    }
}

proof fn lemma_link_run_bounds(s: Seq<Socket>, k: int)
    requires
        0 <= k,
    ensures
        1 <= link_run(s, k) <= k + 1,
    decreases k,
{
    if k > 0 {
        lemma_link_run_bounds(s, k - 1);
    }
}

pub proof fn lemma_max_link_bounds(s: Seq<Socket>, n: int)
    requires
        0 <= n,
    ensures
        n > 0 ==> 1 <= max_link(s, n),
        max_link(s, n) <= n,
    decreases n,
{
    if n > 0 {
        lemma_max_link_bounds(s, n - 1);
        lemma_link_run_bounds(s, n - 1);
    }
}

/// Writes the sockets as text (`|D-D-S|I-D|` is a group of three linked
/// sockets and a group of two), and returns it with the socket count (one
/// more than the number of sockets) and the size of the largest link group.
pub fn parse_socket(s: Vec<Socket>) -> (r: (String, i16, i16))
    requires
        s.len() < 32767,
    ensures
        r.0@ == sockets_text(s@),
        r.1 == socket_number(s.len() as int),
        r.2 == max_link(s@, s.len() as int),
{
    if s.len() == 0 {
        let empty = String::new();
        assert(sockets_text(s@) =~= Seq::<char>::empty());
        return (empty, 0, 0);
    }
    let mut number: i16 = 1;
    let mut counter: i16 = 0;
    let mut max: i16 = 0;
    let mut curr_group: i16 = -1;
    let mut text = String::new();
    let mut i: usize = 0;
    while i < s.len()
        invariant
            i <= s.len() < 32767,
            number == i + 1,
            0 <= counter <= i,
            0 <= max <= i,
            i > 0 ==> counter == link_run(s@, i - 1),
            i > 0 ==> curr_group == s@[i - 1].group,
            i == 0 ==> curr_group == -1 && counter == 0,
            max == max_link(s@, i as int),
            text@ == socket_groups_text(s@.take(i as int)),
        decreases s.len() - i,
    {
        let g = s[i].group;
        let ghost before = s@.take(i as int);
        let ghost after = s@.take(i + 1);
        assert(after.drop_last() =~= before);
        assert(after.last() == s@[i as int]);
        assert(previous_group(after, i as int) == curr_group);
        let ghost old_text = text@;
        if g == curr_group {
            proof {
                reveal_strlit("-");
            }
            assert("-"@ =~= seq!['-']);
            text.append("-");
            text.append(s[i].attribute.as_str());
            counter = counter + 1;
        } else {
            proof {
                reveal_strlit("|");
            }
            assert("|"@ =~= seq!['|']);
            text.append("|");
            text.append(s[i].attribute.as_str());
            curr_group = g;
            counter = 1;
        }
        proof {
            lemma_link_run_bounds(s@, i as int);
        }
        assert(counter == link_run(s@, i as int));
        if counter > max {
            max = counter;
        }
        number = number + 1;
        i = i + 1;
        assert(text@ =~= old_text + separator(after, i - 1) + after.last().attribute@);
        assert(text@ =~= socket_groups_text(after));
    }
    assert(s@.take(s.len() as int) =~= s@);
    proof {
        reveal_strlit("|");
    }
    assert("|"@ =~= seq!['|']);
    text.append("|");
    (text, number, max)
}

} // verus!
