//! The choices a process makes from its command-line arguments: which role it
//! takes, and which ticket names the peer to ping.
use vstd::prelude::*;
use vstd::utf8::encode_utf8;

verus! {

/// Why the arguments do not describe a run.
#[derive(Clone, Copy, Debug, PartialEq, Eq, Structural)]
pub enum ArgsError {
    /// Both `client` and `server` were given.
    BothRoles,
    /// No `--ticket=` argument was given.
    NoTicket,
}

/// The word that selects the initiator role.
pub open spec fn client_word() -> Seq<char> {
    seq!['c', 'l', 'i', 'e', 'n', 't']
}

/// The word that selects the responder role.
pub open spec fn server_word() -> Seq<char> {
    seq!['s', 'e', 'r', 'v', 'e', 'r']
}

/// The UTF-8 bytes of `--ticket=`, which introduce a ticket.
pub open spec fn ticket_flag() -> Seq<u8> {
    seq![0x2du8, 0x2du8, 0x74u8, 0x69u8, 0x63u8, 0x6bu8, 0x65u8, 0x74u8, 0x3du8]
}

/// Whether some argument is exactly `word`.
pub open spec fn names(args: Seq<String>, word: Seq<char>) -> bool {
    exists|i: int| 0 <= i < args.len() && #[trigger] args[i]@ == word
}

/// Whether `arg` is `--ticket=` followed by a ticket: its text up to its first
/// `=` is `--ticket`.
pub open spec fn carries_ticket(arg: String) -> bool {
    let b = encode_utf8(arg@);
    b.len() >= ticket_flag().len() && b.subrange(0, ticket_flag().len() as int) == ticket_flag()
}

/// The ticket that `arg` carries: its bytes after `--ticket=`.
pub open spec fn ticket_of(arg: String) -> Seq<u8> {
    let b = encode_utf8(arg@);
    b.subrange(ticket_flag().len() as int, b.len() as int)
}

/// Whether the process pings (`true`) or answers (`false`): it pings when an
/// argument is `client`, answers when none is, and refuses when another
/// argument is `server` as well.
pub fn is_client(args: &Vec<String>) -> (r: Result<bool, ArgsError>)
    ensures
        r is Err <==> names(args@, client_word()) && names(args@, server_word()),
        r matches Err(e) ==> e == ArgsError::BothRoles,
        r matches Ok(c) ==> c == names(args@, client_word()),
{
    let client = "client".to_owned();
    let server = "server".to_owned();
    proof {
        reveal_strlit("client");
        reveal_strlit("server");
        assert(client@ =~= client_word());
        assert(server@ =~= server_word());
    }
    let mut is_client = false;
    let mut is_server = false;
    let mut i: usize = 0;
    while i < args.len()
        invariant
            i <= args@.len(),
            client@ == client_word(),
            server@ == server_word(),
            is_client == (exists|j: int| 0 <= j < i && #[trigger] args@[j]@ == client_word()),
            is_server == (exists|j: int| 0 <= j < i && #[trigger] args@[j]@ == server_word()),
        decreases args@.len() - i,
    {
        if args[i].eq(&client) {
            is_client = true;
        }
        if args[i].eq(&server) {
            is_server = true;
        }
        i = i + 1;
    }
    if is_client && is_server {
        Err(ArgsError::BothRoles)
    } else {
        Ok(is_client)
    }
}

/// Whether `b` starts with `--ticket=`.
fn starts_with_flag(b: &[u8]) -> (r: bool)
    ensures
        r == (b@.len() >= ticket_flag().len() && b@.subrange(0, ticket_flag().len() as int)
            == ticket_flag()),
{
    let flag: [u8; 9] = [0x2du8, 0x2du8, 0x74u8, 0x69u8, 0x63u8, 0x6bu8, 0x65u8, 0x74u8, 0x3du8];
    assert(flag@ =~= ticket_flag());
    if b.len() < 9 {
        return false;
    }
    let mut k: usize = 0;
    while k < 9
        invariant
            k <= 9,
            b@.len() >= 9,
            flag@ == ticket_flag(),
            b@.subrange(0, k as int) == ticket_flag().subrange(0, k as int),
        decreases 9 - k,
    {
        if b[k] != flag[k] {
            assert(b@.subrange(0, 9)[k as int] != ticket_flag()[k as int]);
            return false;
        }
        assert(b@.subrange(0, k + 1) =~= b@.subrange(0, k as int).push(b@[k as int]));
        assert(ticket_flag().subrange(0, k + 1) =~= ticket_flag().subrange(0, k as int).push(
            ticket_flag()[k as int],
        ));
        k = k + 1;
    }
    assert(ticket_flag().subrange(0, 9) =~= ticket_flag());
    true
}

/// The ticket of the first argument that carries one.
pub fn ticket(args: &Vec<String>) -> (r: Result<Vec<u8>, ArgsError>)
    ensures
        r is Err <==> forall|i: int| 0 <= i < args@.len() ==> !#[trigger] carries_ticket(args@[i]),
        r matches Err(e) ==> e == ArgsError::NoTicket,
        r matches Ok(t) ==> exists|i: int|
            0 <= i < args@.len() && #[trigger] carries_ticket(args@[i])
                && (forall|j: int| 0 <= j < i ==> !#[trigger] carries_ticket(args@[j]))
                && t@ == ticket_of(args@[i]),
{
    let mut i: usize = 0;
    while i < args.len()
        invariant
            i <= args@.len(),
            forall|j: int| 0 <= j < i ==> !#[trigger] carries_ticket(args@[j]),
        decreases args@.len() - i,
    {
        let b = args[i].as_str().as_bytes();
        if starts_with_flag(b) {
            let mut t: Vec<u8> = Vec::new();
            let mut k: usize = 9;
            while k < b.len()
                invariant
                    9 <= k <= b@.len(),
                    t@ == b@.subrange(9, k as int),
                decreases b@.len() - k,
            {
                t.push(b[k]);
                assert(b@.subrange(9, k + 1) =~= b@.subrange(9, k as int).push(b@[k as int]));
                k = k + 1;
            }
            assert(carries_ticket(args@[i as int]));
            return Ok(t);
        }
        i = i + 1;
    }
    Err(ArgsError::NoTicket)
}

} // verus!
