//! Map files: which name a request may delete, where a file is stored,
//! which names a listing shows and what a delete request is answered.
use vstd::prelude::*;

verus! {

/// Start of the `/`-free run of `s` that ends just before index `end`.
pub open spec fn segment_start(s: Seq<char>, end: int) -> int
    decreases end,
{
    if end <= 0 {
        0
    } else if s[end - 1] == '/' {
        end
    } else {
        segment_start(s, end - 1)
    }
}

/// `segment_start` lies between 0 and `end`, and no `/` stands between it and `end`.
pub proof fn lemma_segment_start(s: Seq<char>, end: int)
    requires
        0 <= end <= s.len(),
    ensures
        0 <= segment_start(s, end) <= end,
        forall|k: int| segment_start(s, end) <= k < end ==> s[k] != '/',
        segment_start(s, end) > 0 ==> s[segment_start(s, end) - 1] == '/',
    decreases end,
{
    if end > 0 && s[end - 1] != '/' {
        lemma_segment_start(s, end - 1);
    }
}

/// The last component of the path `s[..end]` when it is a plain name, else empty:
/// empty segments and `.` are skipped, and a final `..` gives no name.
pub open spec fn file_name_upto(s: Seq<char>, end: int) -> Seq<char>
    decreases end,
{
    if end < 0 || end > s.len() {
        Seq::empty()
    } else {
        let start = segment_start(s, end);
        let seg = s.subrange(start, end);
        proof {
            lemma_segment_start(s, end);
        }
        if seg.len() == 0 || seg == seq!['.'] {
            if start <= 0 {
                Seq::empty()
            } else {
                file_name_upto(s, start - 1)
            }
        } else if seg == seq!['.', '.'] {
            Seq::empty()
        } else {
            seg
        }
    }
}

/// The file name of the path `s` (`Path::file_name` on a Unix path), or empty where it has none.
pub open spec fn file_name(s: Seq<char>) -> Seq<char> {
    file_name_upto(s, s.len() as int)
}

/// The name under which a delete request looks for a map file: the last component
/// of `filename` taken as a path, or the empty string where that is no plain name.
pub fn map_file_name(filename: &str) -> (r: String)
    ensures
        r@ == file_name(filename@),
{
    let ghost s = filename@;
    let n = filename.unicode_len();
    let mut end: usize = n;
    loop
        invariant
            n == s.len(),
            s == filename@,
            end <= n,
            file_name_upto(s, end as int) == file_name(s),
        decreases end,
    {
        let mut start: usize = end;
        while start > 0 && filename.get_char(start - 1) != '/'
            invariant
                start <= end <= n,
                n == s.len(),
                s == filename@,
                segment_start(s, end as int) == segment_start(s, start as int),
            decreases start,
        {
            start = start - 1;
        }
        assert(segment_start(s, start as int) == start as int);
        proof {
            lemma_segment_start(s, end as int);
        }
        let ghost seg = s.subrange(start as int, end as int);
        let len: usize = end - start;
        let dot: bool = len == 1 && filename.get_char(start) == '.';
        assert(dot == (seg =~= seq!['.'])) by {
            if len == 1 {
                assert(seg[0] == s[start as int]);
            }
        }
        if len == 0 || dot {
            if start == 0 {
                return String::new();
            }
            end = start - 1;
        } else {
            let dots: bool = len == 2 && filename.get_char(start) == '.'
                && filename.get_char(start + 1) == '.';
            assert(dots == (seg =~= seq!['.', '.'])) by {
                if len == 2 {
                    assert(seg[0] == s[start as int]);
                    assert(seg[1] == s[start + 1]);
                }
            }
            if dots {
                return String::new();
            }
            let name = filename.substring_char(start, end);
            return String::from_str(name);
        }
    }
}

} // verus!

verus! {

/// A plain file name: not empty, no `/`, and neither `.` nor `..`.
pub open spec fn is_plain_name(n: Seq<char>) -> bool {
    &&& n.len() > 0
    &&& forall|i: int| 0 <= i < n.len() ==> n[i] != '/'
    &&& n != seq!['.']
    &&& n != seq!['.', '.']
}

proof fn lemma_file_name_upto_plain(s: Seq<char>, end: int)
    requires
        0 <= end <= s.len(),
    ensures
        file_name_upto(s, end).len() == 0 || is_plain_name(file_name_upto(s, end)),
    decreases end,
{
    lemma_segment_start(s, end);
    let start = segment_start(s, end);
    let seg = s.subrange(start, end);
    if seg.len() == 0 || seg == seq!['.'] {
        if start > 0 {
            lemma_file_name_upto_plain(s, start - 1);
        }
    } else if seg == seq!['.', '.'] {
    } else {
        assert forall|i: int| 0 <= i < seg.len() implies seg[i] != '/' by {
            assert(seg[i] == s[start + i]);
        }
    }
}

/// The name that a delete request may touch is either empty or a plain name:
/// it never holds a `/` and is never `.` or `..`, so the path built from it names
/// an entry directly inside the maps directory.
pub proof fn lemma_file_name_is_plain(s: Seq<char>)
    ensures
        file_name(s).len() == 0 || is_plain_name(file_name(s)),
{
    lemma_file_name_upto_plain(s, s.len() as int);
}

/// A plain name is its own file name.
pub proof fn lemma_plain_name_is_own_file_name(n: Seq<char>)
    requires
        is_plain_name(n),
    ensures
        file_name(n) == n,
{
    lemma_segment_start(n, n.len() as int);
    let start = segment_start(n, n.len() as int);
    if start > 0 {
        assert(n[start - 1] == '/');
    }
    assert(n.subrange(0, n.len() as int) =~= n);
}

/// Taking the file name twice gives the same name as taking it once.
pub proof fn lemma_file_name_idempotent(s: Seq<char>)
    ensures
        file_name(file_name(s)) == file_name(s),
{
    lemma_file_name_is_plain(s);
    let n = file_name(s);
    if n.len() == 0 {
        assert(n.subrange(0, 0) =~= Seq::<char>::empty());
    } else {
        lemma_plain_name_is_own_file_name(n);
    }
}

} // verus!

verus! {

/// The directory that holds the map files, with its trailing `/`.
pub open spec fn maps_dir() -> Seq<char> {
    "./uploads/maps/"@
}

/// The path under which the map file `name` is stored.
pub fn map_file_path(name: &str) -> (r: String)
    ensures
        r@ == maps_dir() + name@,
{
    let mut r = String::from_str("./uploads/maps/");
    r.append(name);
    r
}

/// What the listing of the maps directory learned from its last read.
#[derive(Debug)]
pub enum ListingEvent {
    /// Opening the directory succeeded (`true`) or failed (`false`).
    DirOpened(bool),
    /// Reading the next entry gave: no more entries (`Ok(None)`), an entry with its
    /// name when the name is text (`Ok(Some(..))`), or a failure (`Err(())`).
    Entry(Result<Option<Option<String>>, ()>),
}

/// One step of listing the map files into `names`; returns whether to read another
/// entry. A directory that cannot be opened lists nothing, the listing ends at the
/// last entry or at the first failed read, and each entry whose name is text is
/// appended, in the order read; others are skipped.
pub fn listing_step(names: &mut Vec<String>, event: ListingEvent) -> (more: bool)
    ensures
        match event {
            ListingEvent::DirOpened(opened) => more == opened && final(names)@ == old(names)@,
            ListingEvent::Entry(Ok(Some(Some(name)))) => more && final(names)@ == old(
                names,
            )@.push(name),
            ListingEvent::Entry(Ok(Some(None))) => more && final(names)@ == old(names)@,
            ListingEvent::Entry(Ok(None)) => !more && final(names)@ == old(names)@,
            ListingEvent::Entry(Err(())) => !more && final(names)@ == old(names)@,
        },
{
    match event {
        ListingEvent::DirOpened(opened) => opened,
        ListingEvent::Entry(Ok(Some(Some(name)))) => {
            names.push(name);
            true
        },
        ListingEvent::Entry(Ok(Some(None))) => true,
        ListingEvent::Entry(Ok(None)) => false,
        ListingEvent::Entry(Err(())) => false,
    }
}

/// What the delete request for a map file learned about the file.
#[derive(Debug, Clone)]
pub enum RemoveOutcome {
    /// No file of that name exists.
    Missing,
    /// The file was removed.
    Removed,
    /// Removing the file failed, with this error text.
    Failed(String),
}

/// The body of the reply to a delete request whose file name is not usable.
pub open spec fn invalid_name_text() -> Seq<char> {
    "ชื่อไฟล์ไม่ถูกต้อง"@
}

/// The first step of a delete request: the file name to act on, or the reply
/// `400` when `filename` has no usable file name.
pub fn check_delete_name(filename: &str) -> (r: Result<String, super::Reply>)
    ensures
        r is Ok <==> file_name(filename@).len() > 0,
        r matches Ok(name) ==> name@ == file_name(filename@),
        r matches Err(reply) ==> reply.status == super::STATUS_BAD_REQUEST && reply.body@
            == invalid_name_text(),
{
    let name = map_file_name(filename);
    if name.as_str().is_empty() {
        Err(super::Reply { status: super::STATUS_BAD_REQUEST, body: String::from_str("ชื่อไฟล์ไม่ถูกต้อง") })
    } else {
        Ok(name)
    }
}

/// The reply to a delete request for the map file `name`, once its outcome is known.
pub open spec fn delete_reply_spec(name: Seq<char>, outcome: RemoveOutcome) -> (u16, Seq<char>) {
    match outcome {
        RemoveOutcome::Removed => (super::STATUS_OK, "ลบไฟล์ "@ + name + " สำเร็จ"@),
        RemoveOutcome::Failed(err) => (
            super::STATUS_INTERNAL_SERVER_ERROR,
            "ไม่สามารถลบไฟล์ได้: "@ + err@,
        ),
        RemoveOutcome::Missing => (super::STATUS_NOT_FOUND, "ไม่พบไฟล์ "@ + name),
    }
}

/// Answers a delete request for the map file `name`: `200` when it was removed,
/// `404` when there was no such file, `500` with the error when removal failed.
pub fn delete_reply(name: &str, outcome: RemoveOutcome) -> (r: super::Reply)
    ensures
        (r.status, r.body@) == delete_reply_spec(name@, outcome),
{
    match outcome {
        RemoveOutcome::Removed => {
            let mut body = String::from_str("ลบไฟล์ ");
            body.append(name);
            body.append(" สำเร็จ");
            super::Reply { status: super::STATUS_OK, body }
        },
        RemoveOutcome::Failed(err) => {
            let mut body = String::from_str("ไม่สามารถลบไฟล์ได้: ");
            body.append(err.as_str());
            super::Reply { status: super::STATUS_INTERNAL_SERVER_ERROR, body }
        },
        RemoveOutcome::Missing => {
            let mut body = String::from_str("ไม่พบไฟล์ ");
            body.append(name);
            super::Reply { status: super::STATUS_NOT_FOUND, body }
        },
    }
}

} // verus!

verus! {

/// What the upload of map files learned from its last piece of outside work.
#[derive(Debug)]
pub enum UploadEvent {
    /// Creating the maps directory succeeded, or failed with this error text.
    DirCreated(Result<(), String>),
    /// Reading the next form field gave: no more fields (`Ok(None)`), a field with
    /// its file name if it has one (`Ok(Some(..))`), or an error text.
    NextField(Result<Option<Option<String>>, String>),
    /// Reading the bytes of the field bound for `path` gave these bytes, or failed with this error text.
    DataRead { path: String, read: Result<Vec<u8>, String> },
    /// Creating and writing the file succeeded, or failed with this error text.
    FileStored(Result<(), String>),
}

/// What the upload does next.
#[derive(Debug)]
pub enum UploadAction {
    /// Read the next form field.
    ReadNextField,
    /// Read the bytes of the current field; they go to the file at `path`.
    ReadData { path: String },
    /// Create the file at `path` and write `data`, the field's bytes, into it.
    StoreFile { path: String, data: Vec<u8> },
    /// Reply: `200`, or the error.
    Finish(Result<u16, crate::utils::AppError>),
}

/// The next step of a map upload after `event`. Directory and file errors end
/// it as internal errors, errors of reading the request as bad requests; fields
/// without a file name are skipped; it answers `200` once every field is stored.
pub fn upload_step(event: UploadEvent) -> (a: UploadAction)
    ensures
        match event {
            UploadEvent::DirCreated(Ok(())) => a is ReadNextField,
            UploadEvent::NextField(Ok(Some(None))) => a is ReadNextField,
            UploadEvent::NextField(Ok(Some(Some(name)))) => a matches UploadAction::ReadData {
                path,
            } && path@ == maps_dir() + name@,
            UploadEvent::NextField(Ok(None)) => a == UploadAction::Finish(Ok(super::STATUS_OK)),
            UploadEvent::DataRead { path, read: Ok(bytes) } => a matches UploadAction::StoreFile {
                path: p,
                data,
            } && p@ == path@ && data@ == bytes@,
            UploadEvent::FileStored(Ok(())) => a is ReadNextField,
            UploadEvent::DirCreated(Err(e)) => a == UploadAction::Finish(
                Err(crate::utils::AppError::Internal(e)),
            ),
            UploadEvent::FileStored(Err(e)) => a == UploadAction::Finish(
                Err(crate::utils::AppError::Internal(e)),
            ),
            UploadEvent::NextField(Err(e)) => a == UploadAction::Finish(
                Err(crate::utils::AppError::BadRequest(e)),
            ),
            UploadEvent::DataRead { path: _, read: Err(e) } => a == UploadAction::Finish(
                Err(crate::utils::AppError::BadRequest(e)),
            ),
        },
{
    match event {
        UploadEvent::DirCreated(Ok(())) => UploadAction::ReadNextField,
        UploadEvent::DirCreated(Err(e)) => UploadAction::Finish(
            Err(crate::utils::AppError::Internal(e)),
        ),
        UploadEvent::NextField(Ok(None)) => UploadAction::Finish(Ok(super::STATUS_OK)),
        UploadEvent::NextField(Ok(Some(None))) => UploadAction::ReadNextField,
        UploadEvent::NextField(Ok(Some(Some(name)))) => UploadAction::ReadData {
            path: map_file_path(name.as_str()),
        },
        UploadEvent::NextField(Err(e)) => UploadAction::Finish(
            Err(crate::utils::AppError::BadRequest(e)),
        ),
        UploadEvent::DataRead { path, read: Ok(bytes) } => UploadAction::StoreFile { path, data: bytes },
        UploadEvent::DataRead { path: _, read: Err(e) } => UploadAction::Finish(
            Err(crate::utils::AppError::BadRequest(e)),
        ),
        UploadEvent::FileStored(Ok(())) => UploadAction::ReadNextField,
        UploadEvent::FileStored(Err(e)) => UploadAction::Finish(
            Err(crate::utils::AppError::Internal(e)),
        ),
    }
}

} // verus!

verus! {

/// The file name of a path is its whole last component: for any leading path `d`
/// and any plain name `n`, the file name of `d/n` is `n`, whatever `d` and the length of `n`.
pub proof fn lemma_file_name_of_joined_path(d: Seq<char>, n: Seq<char>)
    requires
        is_plain_name(n),
    ensures
        file_name(d + seq!['/'] + n) == n,
{
    let s = d + seq!['/'] + n;
    let end = s.len() as int;
    let k = d.len() as int;
    lemma_segment_start(s, end);
    let start = segment_start(s, end);
    assert(s[k] == '/');
    if start <= k {
        assert(s[k] != '/');
    }
    if start > k + 1 {
        assert(s[start - 1] == n[start - 1 - (k + 1)]);
    }
    assert(start == k + 1);
    assert(s.subrange(start, end) =~= n);
}

/// The reply to a delete request says what happened to the file: `200` with
/// "ลบไฟล์ <name> สำเร็จ" exactly when it was removed, `404` with
/// "ไม่พบไฟล์ <name>" exactly when it did not exist, and `500` with the error's
/// text exactly when removing it failed.
pub proof fn lemma_delete_reply_reports_outcome(name: Seq<char>, outcome: RemoveOutcome)
    ensures
        (delete_reply_spec(name, outcome).0 == 200) <==> outcome is Removed,
        (delete_reply_spec(name, outcome).0 == 404) <==> outcome is Missing,
        (delete_reply_spec(name, outcome).0 == 500) <==> outcome is Failed,
        outcome is Removed ==> delete_reply_spec(name, outcome).1 == "ลบไฟล์ "@ + name
            + " สำเร็จ"@,
        outcome is Missing ==> delete_reply_spec(name, outcome).1 == "ไม่พบไฟล์ "@ + name,
        outcome matches RemoveOutcome::Failed(e) ==> delete_reply_spec(name, outcome).1
            == "ไม่สามารถลบไฟล์ได้: "@ + e@,
{
}

} // verus!

verus! {

/// A delete request naming a stored map file acts on the file the upload wrote:
/// for a plain name `n`, the request for `n`, or for any path ending in `/n`, is
/// accepted and looks at the path `./uploads/maps/n` where a field named `n` was stored.
pub proof fn lemma_delete_finds_uploaded_file(d: Seq<char>, n: Seq<char>)
    requires
        is_plain_name(n),
    ensures
        file_name(n) == n,
        file_name(d + seq!['/'] + n) == n,
        file_name(n).len() > 0,
        maps_dir() + file_name(d + seq!['/'] + n) == maps_dir() + n,
{
    lemma_plain_name_is_own_file_name(n);
    lemma_file_name_of_joined_path(d, n);
}

} // verus!
