//! The `who is` and `who are` requests.

use crate::text::{concat, same_text};
use vstd::prelude::*;
use vstd::string::StringExecFns;

verus! {

/// What is known of one user.
pub open spec fn user_info(user: Seq<char>) -> Seq<char> {
    "[user info for "@ + user + "]"@
}

/// What is known of each of the users, one block after the other.
pub open spec fn users_info(users: Seq<Seq<char>>) -> Seq<char>
    decreases users.len(),
{
    if users.len() == 0 {
        Seq::empty()
    } else {
        users_info(users.drop_last()) + user_info(users.last()) + "\n\n"@
    }
}

/// The reply to a `who` request with these words after `who`.
pub open spec fn who_reply(command: Seq<Seq<char>>) -> Seq<char> {
    if command.len() == 0 {
        "no verb"@
    } else if command[0] == "is"@ {
        if command.len() == 1 {
            "target not specified"@
        } else if command.len() > 2 {
            "too many targets; use verb are instead"@
        } else {
            user_info(command[1])
        }
    } else if command[0] == "are"@ {
        users_info(command.skip(1))
    } else {
        "unrecognised verb"@
    }
}

/// What is known of `user`.
pub fn get_user_info(user: &str) -> (info: String)
    ensures
        info@ == user_info(user@),
{
    let mut info = concat("[user info for ", user);
    info.append("]");
    info
}

/// The reply to a `who` request. The request is the words of `command` from
/// position `from` on: a verb, then the users asked about.
pub fn run(command: &Vec<String>, from: usize) -> (reply: String)
    requires
        from <= command.len(),
    ensures
        reply@ == who_reply(command.deep_view().skip(from as int)),
{
    let ghost request = command.deep_view().skip(from as int);
    if from == command.len() {
        return String::from_str("no verb");
    }
    assert(request[0] == command[from as int]@);
    let verb = command[from].as_str();
    if same_text(verb, "is") {
        if command.len() - from == 1 {
            return String::from_str("target not specified");
        }
        if command.len() - from > 2 {
            return String::from_str("too many targets; use verb are instead");
        }
        assert(request[1] == command[from + 1]@);
        get_user_info(command[from + 1].as_str())
    } else if same_text(verb, "are") {
        let ghost users = request.skip(1);
        let mut reply = String::new();
        let mut i: usize = from + 1;
        while i < command.len()
            invariant
                from + 1 <= i <= command.len(),
                users == command.deep_view().skip(from + 1),
                reply@ == users_info(users.take(i - from - 1)),
            decreases command.len() - i,
        {
            proof {
                let seen = users.take(i - from - 1);
                let next = users.take(i - from);
                assert(next.drop_last() == seen);
                assert(next.last() == command[i as int]@);
            }
            let info = get_user_info(command[i].as_str());
            reply.append(info.as_str());
            reply.append("\n\n");
            i += 1;
        }
        proof {
            assert(users.take(command.len() - from - 1) == users);
            assert(request.skip(1) == command.deep_view().skip(from + 1));
        }
        reply
    } else {
        String::from_str("unrecognised verb")
    }
}

} // verus!
