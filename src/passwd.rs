//! The per-image passwd file: the login shell an image offers, and the
//! image's own passwd rewritten so that the host user owns the container
//! home.

use vstd::prelude::*;
use crate::directories::CONTAINER_HOME_PATH;
use crate::error::{AvatarError, ErrorKind};
use crate::inspect::{trim, trimmed};
use crate::text::{concat3, same_text, split_at_char, split_spec, views};

verus! {

/// The lines of a text: the pieces between newlines, without the empty piece
/// after a final newline.
pub open spec fn lines_spec(s: Seq<char>) -> Seq<Seq<char>> {
    let p = split_spec(s, '\n');
    if p.len() > 0 && p.last().len() == 0 {
        p.drop_last()
    } else {
        p
    }
}

/// The lines of a text.
pub fn text_lines(s: &str) -> (r: Vec<String>)
    ensures
        views(r@) == lines_spec(s@),
{
    let mut parts = split_at_char(s, '\n');
    let k = parts.len() - 1;
    assert(views(parts@)[k as int] == parts@[k as int]@);
    if parts[k].unicode_len() == 0 {
        let ghost before = parts@;
        parts.pop();
        assert(views(parts@) =~= views(before).drop_last());
    }
    parts
}

/// Whether a listing names this file (a line of it, trimmed, is the name).
pub open spec fn lists(lines: Seq<Seq<char>>, name: Seq<char>) -> bool {
    exists|i: int| 0 <= i < lines.len() && trimmed(#[trigger] lines[i]) == name
}

/// The login shell an image offers, from the list of its files: the first
/// of bash, zsh, dash, ksh and csh that it ships, else `/bin/sh`.
pub open spec fn shell_of_listing(lines: Seq<Seq<char>>) -> Seq<char> {
    if lists(lines, "bin/bash"@) {
        "/bin/bash"@
    } else if lists(lines, "bin/zsh"@) {
        "/bin/zsh"@
    } else if lists(lines, "bin/dash"@) {
        "/bin/dash"@
    } else if lists(lines, "bin/ksh"@) {
        "/bin/ksh"@
    } else if lists(lines, "bin/csh"@) {
        "/bin/csh"@
    } else {
        "/bin/sh"@
    }
}

/// What an image's file list says: whether it ships `etc/passwd`, and the
/// login shell it offers.
pub struct ImageListing {
    pub has_passwd: bool,
    pub shell: String,
}

/// Reads an image's file list, one path per line.
pub fn read_listing(listing: &str) -> (r: ImageListing)
    ensures
        r.has_passwd == lists(lines_spec(listing@), "etc/passwd"@),
        r.shell@ == shell_of_listing(lines_spec(listing@)),
{
    let lines = text_lines(listing);
    let ghost all = views(lines@);
    let mut found_passwd = false;
    let mut found_bash = false;
    let mut found_zsh = false;
    let mut found_dash = false;
    let mut found_ksh = false;
    let mut found_csh = false;
    let mut i: usize = 0;
    while i < lines.len()
        invariant
            all == views(lines@),
            i <= lines@.len(),
            found_passwd == lists(all.take(i as int), "etc/passwd"@),
            found_bash == lists(all.take(i as int), "bin/bash"@),
            found_zsh == lists(all.take(i as int), "bin/zsh"@),
            found_dash == lists(all.take(i as int), "bin/dash"@),
            found_ksh == lists(all.take(i as int), "bin/ksh"@),
            found_csh == lists(all.take(i as int), "bin/csh"@),
        decreases lines@.len() - i,
    {
        let t = trim(lines[i].as_str());
        let ghost next = all.take(i + 1);
        proof {
            assert(next[i as int] == lines@[i as int]@);
            assert forall|name: Seq<char>| lists(next, name) == (lists(all.take(i as int), name) || t@ == name) by {
                if lists(next, name) {
                    let j = choose|j: int| 0 <= j < next.len() && trimmed(#[trigger] next[j]) == name;
                    if j < i {
                        assert(all.take(i as int)[j] == next[j]);
                    }
                }
                if lists(all.take(i as int), name) {
                    let j = choose|j: int| 0 <= j < i && trimmed(#[trigger] all.take(i as int)[j]) == name;
                    assert(all.take(i as int)[j] == next[j]);
                }
            }
        }
        if same_text(t.as_str(), "etc/passwd") {
            found_passwd = true;
        }
        if same_text(t.as_str(), "bin/bash") {
            found_bash = true;
        }
        if same_text(t.as_str(), "bin/csh") {
            found_csh = true;
        }
        if same_text(t.as_str(), "bin/dash") {
            found_dash = true;
        }
        if same_text(t.as_str(), "bin/ksh") {
            found_ksh = true;
        }
        if same_text(t.as_str(), "bin/zsh") {
            found_zsh = true;
        }
        i = i + 1;
    }
    assert(all.take(all.len() as int) == all);
    let shell = if found_bash {
        "/bin/bash"
    } else if found_zsh {
        "/bin/zsh"
    } else if found_dash {
        "/bin/dash"
    } else if found_ksh {
        "/bin/ksh"
    } else if found_csh {
        "/bin/csh"
    } else {
        "/bin/sh"
    };
    ImageListing { has_passwd: found_passwd, shell: shell.to_owned() }
}

/// `<user>:x:<uid>:<gid>::<container home>:<shell>` and a newline.
pub open spec fn passwd_line_of(user: Seq<char>, uid: Seq<char>, gid: Seq<char>, shell: Seq<char>) -> Seq<char> {
    user + ":x:"@ + uid + ":"@ + gid + "::"@ + CONTAINER_HOME_PATH@ + ":"@ + shell + "\n"@
}

/// The passwd line of the host user.
pub fn passwd_line(username: &str, uid: &str, gid: &str, shell: &str) -> (r: String)
    ensures
        r@ == passwd_line_of(username@, uid@, gid@, shell@),
{
    let mut r = concat3(username, ":x:", uid);
    r.append(":");
    r.append(gid);
    r.append("::");
    r.append(CONTAINER_HOME_PATH);
    r.append(":");
    r.append(shell);
    r.append("\n");
    r
}

/// The shell field of a passwd line split at `:`: its last field when it has
/// more than three, else the inferred shell.
pub open spec fn line_shell(parts: Seq<Seq<char>>, inferred: Seq<char>) -> Seq<char> {
    if parts.len() > 3 {
        parts.last()
    } else {
        inferred
    }
}

/// The text rewritten so far and whether the user's line was met; `None`
/// once a line without a uid field was met.
pub open spec fn rewrite_all(
    lines: Seq<Seq<char>>,
    user: Seq<char>,
    uid: Seq<char>,
    gid: Seq<char>,
    inferred: Seq<char>,
) -> Option<(Seq<char>, bool)>
    decreases lines.len(),
{
    if lines.len() == 0 {
        Some((Seq::empty(), false))
    } else {
        match rewrite_all(lines.drop_last(), user, uid, gid, inferred) {
            None => None,
            Some((text, found)) => {
                let t = trimmed(lines.last());
                let parts = split_spec(t, ':');
                if parts.len() < 3 {
                    None
                } else if parts[2] == uid {
                    Some((text + passwd_line_of(user, uid, gid, line_shell(parts, inferred)), true))
                } else {
                    Some((text + t + "\n"@, found))
                }
            },
        }
    }
}

/// An image's passwd with the host user's line: the line with the user's uid
/// rewritten (name, home; its shell kept), or one appended.
pub open spec fn passwd_of(
    src: Seq<char>,
    user: Seq<char>,
    uid: Seq<char>,
    gid: Seq<char>,
    inferred: Seq<char>,
) -> Option<Seq<char>> {
    match rewrite_all(lines_spec(src), user, uid, gid, inferred) {
        None => None,
        Some((text, found)) => Some(
            if found {
                text
            } else {
                text + passwd_line_of(user, uid, gid, inferred)
            },
        ),
    }
}

/// The passwd file of an image that ships one: each line trimmed; the line
/// whose uid is the host user's becomes the host user's (name, container
/// home, the line's own shell when it has one); one is appended when no
/// line has that uid. Fails on a line without a uid field.
pub fn rewrite_passwd(src: &str, username: &str, uid: &str, gid: &str, inferred_shell: &str, image_ref: &str) -> (r: Result<String, AvatarError>)
    ensures
        match passwd_of(src@, username@, uid@, gid@, inferred_shell@) {
            Some(text) => r matches Ok(x) && x@ == text,
            None => r matches Err(e) && e.kind == ErrorKind::Io,
        },
{
    let lines = text_lines(src);
    let ghost all = views(lines@);
    let mut text = String::new();
    let mut found = false;
    let mut i: usize = 0;
    while i < lines.len()
        invariant
            all == views(lines@),
            all == lines_spec(src@),
            i <= lines@.len(),
            rewrite_all(all.take(i as int), username@, uid@, gid@, inferred_shell@) == Some((text@, found)),
        decreases lines@.len() - i,
    {
        proof {
            assert(all.take(i + 1).drop_last() == all.take(i as int));
            assert(all.take(i + 1).last() == lines@[i as int]@);
        }
        let t = trim(lines[i].as_str());
        let parts = split_at_char(t.as_str(), ':');
        if parts.len() < 3 {
            proof {
                assert(rewrite_all(all.take(i + 1), username@, uid@, gid@, inferred_shell@) is None);
                lemma_rewrite_stays_none(all, i as int + 1, username@, uid@, gid@, inferred_shell@);
                assert(all.take(all.len() as int) == all);
            }
            return Err(AvatarError::new(
                ErrorKind::Io,
                concat3("Unable to process exported passwd file from ", image_ref, " image, found corrupted line"),
            ));
        }
        assert(views(parts@)[2] == parts@[2]@);
        if same_text(parts[2].as_str(), uid) {
            let k = parts.len() - 1;
            assert(views(parts@)[k as int] == parts@[k as int]@);
            let shell = if parts.len() > 3 {
                parts[k].as_str()
            } else {
                inferred_shell
            };
            let line = passwd_line(username, uid, gid, shell);
            text.append(line.as_str());
            found = true;
        } else {
            text.append(t.as_str());
            text.append("\n");
        }
        i = i + 1;
    }
    assert(all.take(all.len() as int) == all);
    if !found {
        let line = passwd_line(username, uid, gid, inferred_shell);
        text.append(line.as_str());
    }
    Ok(text)
}

proof fn lemma_rewrite_stays_none(
    all: Seq<Seq<char>>,
    n: int,
    user: Seq<char>,
    uid: Seq<char>,
    gid: Seq<char>,
    inferred: Seq<char>,
)
    requires
        0 <= n <= all.len(),
        rewrite_all(all.take(n), user, uid, gid, inferred) is None,
    ensures
        rewrite_all(all, user, uid, gid, inferred) is None,
    decreases all.len() - n,
{
    if n < all.len() {
        assert(all.take(n + 1).drop_last() == all.take(n));
        lemma_rewrite_stays_none(all, n + 1, user, uid, gid, inferred);
    } else {
        assert(all.take(n) == all);
    }
}

/// The passwd file of an image that ships none: the host user's line alone.
pub fn new_passwd(username: &str, uid: &str, gid: &str, inferred_shell: &str) -> (r: String)
    ensures
        r@ == passwd_line_of(username@, uid@, gid@, inferred_shell@),
{
    passwd_line(username, uid, gid, inferred_shell)
}

} // verus!
