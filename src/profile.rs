use vstd::prelude::*;

verus! {

/// A shareable pointer to a user: a public key and the relays where the
/// user's notes can be found.
pub struct Profile {
    pub pubkey: String,
    pub relays: Vec<String>,
}

/// The profile to share for one's own key: the key and one's outbox relays.
/// There is none when no key is set or when the relays could not be read.
pub fn get_your_nprofile(
    public_key: Option<String>,
    outbox_relays: Result<Vec<String>, String>,
) -> (r: Option<Profile>)
    ensures
        r is Some <==> (public_key is Some && outbox_relays is Ok),
        r is Some ==> r->0.pubkey == public_key->0,
        r is Some ==> r->0.relays@ == outbox_relays->Ok_0@,
{
    let pubkey = match public_key {
        Some(pk) => pk,
        None => return None,
    };
    let mut found: Vec<String> = Vec::new();
    match outbox_relays {
        Err(_) => {
            return None;
        },
        Ok(relays) => {
            let mut i: usize = 0;
            while i < relays.len()
                invariant
                    i <= relays.len(),
                    found@ == relays@.take(i as int),
                decreases relays.len() - i,
            {
                found.push(relays[i].clone());
                assert(relays@.take(i + 1) =~= relays@.take(i as int).push(relays@[i as int]));
                i = i + 1;
            }
            assert(relays@.take(relays.len() as int) =~= relays@);
        },
    }
    Some(Profile { pubkey, relays: found })
}

} // verus!
