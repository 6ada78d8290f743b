//! The matchmaking queue: arrivals wait in order and leave two at a time.
use crate::player::NewPlayer;
use std::collections::VecDeque;
use vstd::prelude::*;

verus! {

/// Players waiting for an opponent, oldest first.
pub struct MatchMaker<C> {
    pub player_queue: VecDeque<NewPlayer<C>>,
}

/// The characters that a handshake's bytes stand for, one per byte.
pub open spec fn name_of(bytes: Seq<u8>) -> Seq<char> {
    bytes.map_values(|b: u8| b as char)
}

impl<C> MatchMaker<C> {
    pub fn new() -> (r: Self)
        ensures
            r.player_queue@.len() == 0,
    {
        Self { player_queue: VecDeque::new() }
    }

    /// Queues an arrival. As soon as two players wait, the two oldest leave
    /// the queue together and are returned, to be matched against each
    /// other.
    pub fn recieve_new_player(&mut self, player: NewPlayer<C>) -> (r: Option<
        (NewPlayer<C>, NewPlayer<C>),
    >)
        ensures
            ({
                let q = old(self).player_queue@.push(player);
                if q.len() >= 2 {
                    &&& r == Some((q[0], q[1]))
                    &&& final(self).player_queue@ == q.subrange(2, q.len() as int)
                } else {
                    &&& r is None
                    &&& final(self).player_queue@ == q
                }
            }),
            old(self).player_queue@.len() <= 1 ==> final(self).player_queue@.len() <= 1,
    {
        self.player_queue.push_back(player);
        if self.player_queue.len() > 1 {
            let player_1 = self.player_queue.pop_front();
            let player_2 = self.player_queue.pop_front();
            match (player_1, player_2) {
                (Some(a), Some(b)) => Some((a, b)),
                _ => None,
            }
        } else {
            None
        }
    }

    /// Records the name that a player declared in its handshake, one
    /// character per byte.
    pub fn setup_player(player: &mut NewPlayer<C>, handshake: &[u8])
        ensures
            final(player).player_name is Some,
            final(player).player_name->Some_0@ == name_of(handshake@),
            final(player).game_type == old(player).game_type,
            final(player).tcp_stream == old(player).tcp_stream,
    {
        let mut name = String::new();
        let mut i: usize = 0;
        while i < handshake.len()
            invariant
                i <= handshake@.len(),
                name@ == name_of(handshake@.subrange(0, i as int)),
            decreases handshake@.len() - i,
        {
            push_char(&mut name, handshake[i] as char);
            assert(handshake@.subrange(0, i + 1) =~= handshake@.subrange(0, i as int).push(
                handshake@[i as int],
            ));
            i += 1;
        }
        assert(handshake@.subrange(0, handshake@.len() as int) =~= handshake@);
        player.player_name = Some(name);
    }
}

/// Relies on String::push: the character is appended at the end.
#[verifier::external_body]
fn push_char(s: &mut String, c: char)
    ensures
        final(s)@ == old(s)@.push(c),
{
    s.push(c)
}

} // verus!
