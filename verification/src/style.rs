//! Where the user's style sheet and its backup live: `nmrs/style.css` and
//! `nmrs/style.custom.css` under the user's configuration directory. Paths
//! are held as the bytes that the system gives them (on Unix, a path is any
//! sequence of bytes), so a directory whose name is not UTF-8 is kept as is.
use vstd::prelude::*;

verus! {

/// The byte `/`, which separates the parts of a Unix path.
pub open spec fn separator() -> u8 {
    0x2Fu8
}

/// The bytes of a text made of ASCII characters.
pub open spec fn ascii(s: Seq<char>) -> Seq<u8> {
    Seq::new(s.len(), |i: int| s[i] as u8)
}

/// `seg` appended to the path `base` as `PathBuf::push` does on Unix: an
/// absolute `seg` replaces `base`; otherwise a `/` goes between them unless
/// `base` is empty or already ends in one.
pub open spec fn path_join(base: Seq<u8>, seg: Seq<u8>) -> Seq<u8> {
    if seg.len() > 0 && seg[0] == separator() {
        seg
    } else if base.len() == 0 || base.last() == separator() {
        base + seg
    } else {
        base + seq![separator()] + seg
    }
}

fn append_bytes(out: &mut Vec<u8>, bytes: &[u8])
    ensures
        final(out)@ == old(out)@ + bytes@,
{
    let n = bytes.len();
    let mut i: usize = 0;
    while i < n
        invariant
            i <= n == bytes@.len(),
            out@ == old(out)@ + bytes@.subrange(0, i as int),
        decreases n - i,
    {
        out.push(bytes[i]);
        i = i + 1;
        proof {
            assert(bytes@.subrange(0, i as int) =~= bytes@.subrange(0, i - 1) + seq![bytes@[i - 1]]);
        }
    }
    assert(bytes@.subrange(0, n as int) =~= bytes@);
}

/// `base.join(seg)` for Unix paths held as bytes.
pub fn join_path(base: &[u8], seg: &[u8]) -> (r: Vec<u8>)
    ensures
        r@ == path_join(base@, seg@),
{
    if seg.len() > 0 && seg[0] == 0x2Fu8 {
        return vstd::slice::slice_to_vec(seg);
    }
    let mut out = vstd::slice::slice_to_vec(base);
    if !(base.len() == 0 || base[base.len() - 1] == 0x2Fu8) {
        out.push(0x2Fu8);
    }
    append_bytes(&mut out, seg);
    out
}

/// The bytes of an ASCII literal.
fn literal_bytes(s: &'static str) -> (r: &'static [u8])
    requires
        vstd::string::is_ascii(s),
    ensures
        r@ == ascii(s@),
{
    proof {
        vstd::string::is_ascii_spec_bytes(s);
    }
    let b = s.as_bytes();
    assert(b@ =~= ascii(s@));
    b
}

/// Calls `dirs::config_dir`, the user's configuration directory, and takes
/// its bytes with `OsString::into_encoded_bytes` (on Unix, the path's bytes
/// as they are). It depends on the environment and the platform, so nothing
/// is stated of it.
#[verifier::external_body]
fn user_config_dir() -> (r: Option<Vec<u8>>) {
    match dirs::config_dir() {
        Some(p) => Some(p.into_os_string().into_encoded_bytes()),
        None => None,
    }
}

/// The application's configuration directory under `root`.
pub open spec fn config_dir_in(root: Seq<u8>) -> Seq<u8> {
    path_join(root, ascii("nmrs"@))
}

/// The style sheet's path under the configuration root `root`.
pub open spec fn style_path_spec(root: Seq<u8>) -> Seq<u8> {
    path_join(config_dir_in(root), ascii("style.css"@))
}

/// The backup's path under the configuration root `root`.
pub open spec fn backup_path_spec(root: Seq<u8>) -> Seq<u8> {
    path_join(config_dir_in(root), ascii("style.custom.css"@))
}

/// What `config_root` gives for what was found.
pub open spec fn config_root_spec(found: Option<Vec<u8>>) -> Seq<u8> {
    match found {
        Some(d) => d@,
        None => Seq::<u8>::empty(),
    }
}

/// The configuration root: the directory found, or the empty path (the
/// current directory) when there is none.
pub fn config_root(found: Option<Vec<u8>>) -> (r: Vec<u8>)
    ensures
        r@ == config_root_spec(found),
{
    match found {
        Some(d) => d,
        None => Vec::new(),
    }
}

/// The application's directory under the configuration root `root`.
pub fn config_dir_under(root: &[u8]) -> (r: Vec<u8>)
    ensures
        r@ == config_dir_in(root@),
{
    proof {
        reveal_strlit("nmrs");
    }
    join_path(root, literal_bytes("nmrs"))
}

/// The application's configuration directory: `nmrs` under the user's
/// configuration directory (under the current directory when there is
/// none), that is, under `config_root` of what `dirs::config_dir` finds.
pub fn config_dir() -> (r: Vec<u8>)
    ensures
        exists|found: Option<Vec<u8>>| r@ == config_dir_in(config_root_spec(found)),
{
    let found = user_config_dir();
    let ghost g = found;
    let root = config_root(found);
    let r = config_dir_under(root.as_slice());
    assert(r@ == config_dir_in(config_root_spec(g)));
    r
}

/// The style sheet's path under the configuration root `root`.
pub fn style_path_under(root: &[u8]) -> (r: Vec<u8>)
    ensures
        r@ == style_path_spec(root@),
{
    proof {
        reveal_strlit("style.css");
    }
    let dir = config_dir_under(root);
    join_path(dir.as_slice(), literal_bytes("style.css"))
}

/// The path of the user's style sheet.
pub fn style_path() -> (r: Vec<u8>)
    ensures
        exists|found: Option<Vec<u8>>| r@ == style_path_spec(config_root_spec(found)),
{
    let found = user_config_dir();
    let ghost g = found;
    let root = config_root(found);
    let r = style_path_under(root.as_slice());
    assert(r@ == style_path_spec(config_root_spec(g)));
    r
}

/// The backup's path under the configuration root `root`.
pub fn custom_backup_path_under(root: &[u8]) -> (r: Vec<u8>)
    ensures
        r@ == backup_path_spec(root@),
{
    proof {
        reveal_strlit("style.custom.css");
    }
    let dir = config_dir_under(root);
    join_path(dir.as_slice(), literal_bytes("style.custom.css"))
}

/// The path of the backup of a customised style sheet.
pub fn custom_backup_path() -> (r: Vec<u8>)
    ensures
        exists|found: Option<Vec<u8>>| r@ == backup_path_spec(config_root_spec(found)),
{
    let found = user_config_dir();
    let ghost g = found;
    let root = config_root(found);
    let r = custom_backup_path_under(root.as_slice());
    assert(r@ == backup_path_spec(config_root_spec(g)));
    r
}

/// The style sheet and its backup sit side by side in the same directory:
/// both are a file name joined to the same configuration directory.
pub proof fn lemma_style_and_backup_share_dir(root: Seq<u8>)
    ensures
        style_path_spec(root) == config_dir_in(root) + ascii("/style.css"@),
        backup_path_spec(root) == config_dir_in(root) + ascii("/style.custom.css"@),
{
    reveal_strlit("nmrs");
    reveal_strlit("style.css");
    reveal_strlit("style.custom.css");
    reveal_strlit("/style.css");
    reveal_strlit("/style.custom.css");
    let d = config_dir_in(root);
    let n = ascii("nmrs"@);
    assert(n.len() == 4 && n[0] != separator() && n[3] == ('s' as u8));
    assert(d.len() > 0 && d.last() == ('s' as u8)) by {
        if root.len() == 0 || root.last() == separator() {
            assert(d == root + n);
        } else {
            assert(d == root + seq![separator()] + n);
        }
    }
    assert(ascii("style.css"@)[0] != separator());
    assert(ascii("style.custom.css"@)[0] != separator());
    assert(style_path_spec(root) =~= d + ascii("/style.css"@));
    assert(backup_path_spec(root) =~= d + ascii("/style.custom.css"@));
}

} // verus!
