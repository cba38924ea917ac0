use vstd::prelude::*;
use vstd::string::{StrSliceExecFns, StringExecFns};

verus! {

/// The index of the last `c` in `s`, or -1 when there is none.
pub open spec fn last_index(s: Seq<char>, c: char) -> int
    decreases s.len(),
{
    if s.len() == 0 {
        -1
    } else if s.last() == c {
        s.len() - 1
    } else {
        last_index(s.drop_last(), c)
    }
}

/// `Path::join` with `/` as separator (`PathBuf::push` on Unix): an absolute
/// `part` replaces `base`; otherwise `part` is appended, after a `/` when
/// `base` is non-empty and does not already end in one.
pub open spec fn path_join_spec(base: Seq<char>, part: Seq<char>) -> Seq<char> {
    if part.len() > 0 && part[0] == '/' {
        part
    } else if base.len() == 0 || base.last() == '/' {
        base + part
    } else {
        base + "/"@ + part
    }
}

/// A path whose last component is a plain file name: it is not empty and
/// does not end in `/` or `.`, so its file name is the text after its last
/// `/` and is neither `.` nor `..`.
pub open spec fn plain_file_path(path: Seq<char>) -> bool {
    path.len() > 0 && path.last() != '/' && path.last() != '.'
}

/// The path up to the end of its file stem: without the file name's
/// extension, which is the text after the file name's last `.` when that dot
/// is not the file name's first character; the whole path when there is none.
pub open spec fn path_stem(path: Seq<char>) -> Seq<char> {
    let dot = last_index(path, '.');
    if dot > last_index(path, '/') + 1 {
        path.subrange(0, dot)
    } else {
        path
    }
}

/// `Path::with_extension` on a plain file path (with `/` as separator): the
/// path cut after its file stem, followed by `.` and `ext` unless `ext` is
/// empty.
pub open spec fn with_extension_spec(path: Seq<char>, ext: Seq<char>) -> Seq<char> {
    if ext.len() == 0 {
        path_stem(path)
    } else {
        path_stem(path) + "."@ + ext
    }
}

proof fn lemma_last_index_bounds(s: Seq<char>, c: char)
    ensures
        -1 <= last_index(s, c) < s.len(),
        last_index(s, c) >= 0 ==> s[last_index(s, c)] == c,
        s.len() > 0 && s.last() != c ==> last_index(s, c) < s.len() - 1,
        forall|k: int| last_index(s, c) < k < s.len() ==> #[trigger] s[k] != c,
    decreases s.len(),
{
    if s.len() > 0 {
        lemma_last_index_bounds(s.drop_last(), c);
        assert forall|k: int| last_index(s, c) < k < s.len() implies #[trigger] s[k] != c by {
            if k < s.len() - 1 {
                assert(s.drop_last()[k] == s[k]);
            }
        }
    }
}

/// The index of the last `c` in `s`.
fn find_last(s: &str, c: char) -> (r: Option<usize>)
    ensures
        match r {
            Some(i) => i == last_index(s@, c),
            None => last_index(s@, c) == -1,
        },
{
    let n = s.unicode_len();
    let mut i = n;
    assert(s@.subrange(0, n as int) =~= s@);
    while i > 0
        invariant
            i <= n == s@.len(),
            last_index(s@, c) == last_index(s@.subrange(0, i as int), c),
        decreases i,
    {
        let ghost prefix = s@.subrange(0, i as int);
        assert(prefix.last() == s@[i - 1]);
        if s.get_char(i - 1) == c {
            return Some(i - 1);
        }
        assert(prefix.drop_last() =~= s@.subrange(0, i - 1));
        i = i - 1;
    }
    None
}

/// Joins `part` to `base` as `Path::join` does on Unix.
pub fn join_path(base: &str, part: &str) -> (p: String)
    ensures
        p@ == path_join_spec(base@, part@),
{
    let part_len = part.unicode_len();
    if part_len > 0 && part.get_char(0) == '/' {
        return part.to_owned();
    }
    let base_len = base.unicode_len();
    let mut p = base.to_owned();
    if base_len > 0 && base.get_char(base_len - 1) != '/' {
        p.append("/");
    }
    p.append(part);
    p
}

/// Gives a plain file path the extension `ext`, as `Path::with_extension`
/// does on Unix.
pub fn with_extension(path: &str, ext: &str) -> (p: String)
    requires
        plain_file_path(path@),
    ensures
        p@ == with_extension_spec(path@, ext@),
{
    let dot = find_last(path, '.');
    let slash = find_last(path, '/');
    proof {
        lemma_last_index_bounds(path@, '.');
        lemma_last_index_bounds(path@, '/');
    }
    let cut = match dot {
        Some(d) => match slash {
            Some(s) => d > s && d - s > 1,
            None => d > 0,
        },
        None => false,
    };
    let mut p = if cut {
        match dot {
            Some(d) => path.substring_char(0, d).to_owned(),
            None => path.to_owned(),
        }
    } else {
        path.to_owned()
    };
    if ext.unicode_len() > 0 {
        p.append(".");
        p.append(ext);
    }
    p
}

/// Where the files of one recording go: the user's folder under the save
/// path, and in it the transport stream, the MP4 file and the contact sheet.
pub struct RecordingPaths {
    pub directory: String,
    pub ts: String,
    pub mp4: String,
    pub jpg: String,
}

/// The paths of the recording named `base` of `username`: the folder
/// `save_path/username`, the transport stream `base.ts` in it, the MP4 file
/// that path takes with the extension `mp4`, and the contact sheet that path
/// takes with the extension `jpg`.
pub fn recording_paths(save_path: &str, username: &str, base: &str) -> (paths: RecordingPaths)
    ensures
        paths.directory@ == path_join_spec(save_path@, username@),
        paths.ts@ == path_join_spec(paths.directory@, base@ + ".ts"@),
        paths.mp4@ == with_extension_spec(paths.ts@, "mp4"@),
        paths.jpg@ == with_extension_spec(paths.mp4@, "jpg"@),
{
    proof {
        reveal_strlit(".ts");
        reveal_strlit("mp4");
        reveal_strlit(".");
    }
    let directory = join_path(save_path, username);
    let mut ts_name = base.to_owned();
    ts_name.append(".ts");
    let ts = join_path(directory.as_str(), ts_name.as_str());
    assert(ts@.last() == 's');
    let mp4 = with_extension(ts.as_str(), "mp4");
    assert(mp4@.last() == '4');
    let jpg = with_extension(mp4.as_str(), "jpg");
    RecordingPaths { directory, ts, mp4, jpg }
}

/// What `path_join_spec(base, part)` puts before `part`.
pub open spec fn join_prefix(base: Seq<char>, part: Seq<char>) -> Seq<char> {
    if part.len() > 0 && part[0] == '/' {
        Seq::empty()
    } else if base.len() == 0 || base.last() == '/' {
        base
    } else {
        base + "/"@
    }
}

proof fn lemma_join_is_prefix_plus_part(base: Seq<char>, part: Seq<char>)
    ensures
        path_join_spec(base, part) =~= join_prefix(base, part) + part,
        join_prefix(base, part).len() == 0 || join_prefix(base, part).last() == '/',
{
    reveal_strlit("/");
}

proof fn lemma_last_index_append(s: Seq<char>, t: Seq<char>, c: char)
    requires
        forall|i: int| 0 <= i < t.len() ==> t[i] != c,
    ensures
        last_index(s + t, c) == last_index(s, c),
    decreases t.len(),
{
    if t.len() > 0 {
        assert((s + t).drop_last() =~= s + t.drop_last());
        lemma_last_index_append(s, t.drop_last(), c);
    } else {
        assert(s + t =~= s);
    }
}

/// Giving `r.e` the extension `x`, when `e` holds no `.` or `/`: the extension
/// `e` is replaced when `r` is a non-empty text not ending in `/`; otherwise
/// the file name `.e` has no extension and `.x` is added after it.
proof fn lemma_with_extension_of_dotted(r: Seq<char>, e: Seq<char>, x: Seq<char>)
    requires
        forall|i: int| 0 <= i < e.len() ==> e[i] != '.' && e[i] != '/',
        x.len() > 0,
    ensures
        with_extension_spec(r + "."@ + e, x) == if r.len() > 0 && r.last() != '/' {
            r + "."@ + x
        } else {
            r + "."@ + e + "."@ + x
        },
{
    reveal_strlit(".");
    let p = r + "."@ + e;
    assert forall|i: int| 0 <= i < e.len() implies e[i] != '.' by {}
    assert forall|i: int| 0 <= i < e.len() implies e[i] != '/' by {}
    lemma_last_index_append(r + "."@, e, '.');
    lemma_last_index_append(r + "."@, e, '/');
    lemma_last_index_append(r, "."@, '/');
    assert((r + "."@).drop_last() =~= r);
    assert(last_index(r + "."@, '.') == r.len());
    lemma_last_index_bounds(r, '/');
    if r.len() > 0 && r.last() != '/' {
        assert(p.subrange(0, r.len() as int) =~= r);
    }
}

/// The three files of a recording share its base name in the user's folder:
/// the MP4 file and the contact sheet are `base.mp4` and `base.jpg` beside
/// `base.ts`. The exception is a base name that is empty or ends in `/`
/// (a stream id ending in `/`): the transport stream's file name is then
/// `.ts`, which has no extension, so the MP4 file is `<ts path>.mp4` and the
/// contact sheet `<ts path>.jpg`.
pub proof fn lemma_recording_files_share_base_name(save_path: Seq<char>, username: Seq<char>, base: Seq<char>)
    ensures
        ({
            let directory = path_join_spec(save_path, username);
            let ts = path_join_spec(directory, base + ".ts"@);
            let mp4 = with_extension_spec(ts, "mp4"@);
            let jpg = with_extension_spec(mp4, "jpg"@);
            if base.len() > 0 && base.last() != '/' {
                mp4 == path_join_spec(directory, base + ".mp4"@) && jpg == path_join_spec(directory, base + ".jpg"@)
            } else {
                mp4 == ts + ".mp4"@ && jpg == ts + ".jpg"@
            }
        }),
{
    reveal_strlit(".ts");
    reveal_strlit(".mp4");
    reveal_strlit(".jpg");
    reveal_strlit("mp4");
    reveal_strlit("jpg");
    reveal_strlit(".");
    let directory = path_join_spec(save_path, username);
    let ts_part = base + ".ts"@;
    let pre = join_prefix(directory, ts_part);
    lemma_join_is_prefix_plus_part(directory, ts_part);
    let ts = path_join_spec(directory, ts_part);
    let r = pre + base;
    assert(ts =~= r + "."@ + "ts"@) by { reveal_strlit("ts"); }
    assert forall|i: int| 0 <= i < "ts"@.len() implies "ts"@[i] != '.' && "ts"@[i] != '/' by {
        reveal_strlit("ts");
    }
    assert forall|i: int| 0 <= i < "mp4"@.len() implies "mp4"@[i] != '.' && "mp4"@[i] != '/' by {}
    lemma_with_extension_of_dotted(r, "ts"@, "mp4"@);
    let mp4 = with_extension_spec(ts, "mp4"@);
    let cut = r.len() > 0 && r.last() != '/';
    assert(cut == (base.len() > 0 && base.last() != '/')) by {
        if base.len() > 0 {
            assert(r.last() == base.last());
        } else {
            assert(r =~= pre);
        }
    }
    let rm = if cut { r } else { r + "."@ + "ts"@ };
    assert(mp4 == rm + "."@ + "mp4"@);
    assert(rm.len() > 0 && rm.last() != '/') by {
        reveal_strlit("ts");
        if !cut {
            assert(rm.last() == 's');
        }
    }
    lemma_with_extension_of_dotted(rm, "mp4"@, "jpg"@);
    if cut {
        let mp4_part = base + ".mp4"@;
        let jpg_part = base + ".jpg"@;
        lemma_join_is_prefix_plus_part(directory, mp4_part);
        lemma_join_is_prefix_plus_part(directory, jpg_part);
        assert(join_prefix(directory, mp4_part) == pre);
        assert(join_prefix(directory, jpg_part) == pre);
        assert(mp4 =~= path_join_spec(directory, mp4_part));
        assert(with_extension_spec(mp4, "jpg"@) =~= path_join_spec(directory, jpg_part));
    } else {
        assert(mp4 =~= ts + ".mp4"@);
        assert(with_extension_spec(mp4, "jpg"@) =~= ts + ".jpg"@);
    }
}

/// A joined path ends with the part, unchanged; a relative part is put after
/// the base, unchanged, with at most one `/` between them.
pub proof fn lemma_join_keeps_parts(base: Seq<char>, part: Seq<char>)
    ensures
        ({
            let p = path_join_spec(base, part);
            &&& p.len() >= part.len()
            &&& p.subrange(p.len() - part.len(), p.len() as int) == part
            &&& !(part.len() > 0 && part[0] == '/') ==> {
                &&& p.subrange(0, base.len() as int) == base
                &&& if base.len() > 0 && base.last() != '/' {
                    p.len() == base.len() + part.len() + 1 && p[base.len() as int] == '/'
                } else {
                    p.len() == base.len() + part.len()
                }
            }
            &&& part.len() > 0 && part[0] == '/' ==> p == part
        }),
{
    reveal_strlit("/");
    let p = path_join_spec(base, part);
    assert(p.subrange(p.len() - part.len(), p.len() as int) =~= part);
    if !(part.len() > 0 && part[0] == '/') {
        assert(p.subrange(0, base.len() as int) =~= base);
    }
}

/// Giving a plain file path a non-empty extension keeps the path up to the
/// end of its file stem unchanged and ends it with `.` and the extension.
pub proof fn lemma_with_extension_keeps_stem(path: Seq<char>, ext: Seq<char>)
    requires
        ext.len() > 0,
    ensures
        ({
            let p = with_extension_spec(path, ext);
            let stem_len = p.len() - ext.len() - 1;
            &&& 0 <= stem_len <= path.len()
            &&& p.subrange(0, stem_len) == path.subrange(0, stem_len)
            &&& p.subrange(stem_len, p.len() as int) == "."@ + ext
            &&& ({
                let removed = path.subrange(stem_len, path.len() as int);
                removed.len() == 0 || (removed[0] == '.' && stem_len > 0 && path[stem_len - 1] != '/'
                    && forall|k: int| 0 < k < removed.len() ==> #[trigger] removed[k] != '.' && removed[k] != '/')
            })
        }),
{
    reveal_strlit(".");
    lemma_last_index_bounds(path, '.');
    lemma_last_index_bounds(path, '/');
    let p = with_extension_spec(path, ext);
    let stem = path_stem(path);
    assert(p =~= stem + "."@ + ext);
    assert(p.subrange(0, stem.len() as int) =~= stem);
    assert(path.subrange(0, stem.len() as int) =~= stem);
    assert(p.subrange(stem.len() as int, p.len() as int) =~= "."@ + ext);
    let removed = path.subrange(stem.len() as int, path.len() as int);
    assert forall|k: int| 0 < k < removed.len() implies #[trigger] removed[k] != '.' && removed[k] != '/' by {
        assert(removed[k] == path[stem.len() + k]);
    }
}

} // verus!
