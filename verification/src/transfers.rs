//! Files that go up and attachments that come down.

use vstd::prelude::*;

use crate::text::{
    begins_with, decimal, decimal_text, decimal_text_spells_the_number, decimal_value, joined,
    occurs_at, text_view,
};

verus! {

/// What has just been done with a file to upload, and how it went.
#[derive(Debug)]
pub enum UploadEvent {
    /// The size of the file was asked for.
    Measured(Result<u64, String>),
    /// A file of this size was opened.
    Opened { size: u64, outcome: Result<(), String> },
}

/// What is to be done next with a file to upload.
#[derive(Debug)]
pub enum UploadStep {
    /// Open the file, which has this size.
    Open { size: u64 },
    /// All is done: this is the answer.
    Finish { answer: Result<String, String> },
}

/// The answer for a file that could be read. A file without a name that can be shown is called
/// `unknown`.
pub open spec fn read_message(file_name: Option<Seq<char>>, size: nat) -> Seq<char> {
    "Zakończono odczyt pliku ("@ + match file_name {
        Some(name) => name,
        None => "unknown"@,
    } + ") o rozmiarze "@ + decimal_text(size) + " bajtów."@
}

/// The characters of a name that may be missing.
pub open spec fn name_view(name: Option<&str>) -> Option<Seq<char>> {
    match name {
        Some(text) => Some(text@),
        None => None,
    }
}

/// What may stand behind the last name of a path.
pub open spec fn is_path_filler(c: char) -> bool {
    c == '/' || c == '\\' || c == '.'
}

/// `name` stands in `path` at `at`, and nothing of weight comes behind it.
pub open spec fn ends_path_at(path: Seq<char>, name: Seq<char>, at: int) -> bool {
    &&& occurs_at(path, name, at)
    &&& forall|k: int| at + name.len() <= k < path.len() ==> is_path_filler(#[trigger] path[k])
}

/// The path is read alike on every system: names are parted by `/` alone, and no drive, server or
/// device comes before them.
pub open spec fn is_plain_path(path: Seq<char>) -> bool {
    &&& forall|k: int| 0 <= k < path.len() ==> #[trigger] path[k] != '\\' && path[k] != ':'
    &&& !begins_with(path, "//"@)
}

/// What stands behind the last `/` of a path.
pub open spec fn last_segment(path: Seq<char>) -> Seq<char>
    decreases path.len(),
{
    if path.len() == 0 || path.last() == '/' {
        Seq::empty()
    } else {
        last_segment(path.drop_last()).push(path.last())
    }
}

/// The last name of a path whose names are parted by `/`. Empty names and `.` at the end do not
/// count, and `..` is no name.
pub open spec fn last_name(path: Seq<char>) -> Option<Seq<char>>
    decreases path.len(),
{
    let segment = last_segment(path);
    if path.len() == 0 || segment == ".."@ {
        None
    } else if segment.len() == 0 || segment == "."@ {
        last_name(path.drop_last())
    } else {
        Some(segment)
    }
}

/// What the name of the file at a path can be. On a plain path it is the last name. On others it
/// differs between systems, which do not part the names of a path alike.
pub open spec fn can_be_file_name(path: Seq<char>, name: Option<Seq<char>>) -> bool {
    &&& name matches Some(n) ==> n.len() > 0 && exists|at: int| ends_path_at(path, n, at)
    &&& is_plain_path(path) ==> name == last_name(path)
}

/// `std::path::Path::file_name`: the last component of a path, if that is a name. Separators that
/// follow each other count for one, and neither those at the end nor a `.` there is a component.
/// The name is a part of the path and not empty, and only separators and dots that do not count
/// can follow it. Where the path holds no `\` and no `:` and does not begin with two separators,
/// the names are those between the `/`. Nothing more is said of other paths, because their
/// separators and prefixes are those of the system.
#[verifier::external_body]
fn path_file_name(path: &str) -> (name: Option<String>)
    ensures
        can_be_file_name(path@, text_view(name)),
{
    match std::path::Path::new(path).file_name() {
        Some(name) => name.to_str().map(|n| n.to_string()),
        None => None,
    }
}

/// The system calls the file at this path by this name, or by none: `path_file_name` gave it.
pub closed spec fn is_name_given(path: &str, name: Option<String>) -> bool {
    call_ensures(path_file_name, (path,), name)
}

/// The step that answers an event is this one, for a file with this name.
pub open spec fn is_upload_step(
    file_name: Option<Seq<char>>,
    event: UploadEvent,
    step: UploadStep,
) -> bool {
    match event {
        UploadEvent::Measured(Ok(size)) => step == (UploadStep::Open { size }),
        UploadEvent::Measured(Err(reason)) => step matches UploadStep::Finish {
            answer: Err(message),
        } && message@ == "Błąd odczytu metadanych: "@ + reason@,
        UploadEvent::Opened { size, outcome: Ok(_) } => step matches UploadStep::Finish {
            answer: Ok(message),
        } && message@ == read_message(file_name, size as nat),
        UploadEvent::Opened { size, outcome: Err(reason) } => step matches UploadStep::Finish {
            answer: Err(message),
        } && message@ == "Błąd otwarcia pliku: "@ + reason@,
    }
}

/// Reads the file at a path step by step: first its size, then the file. The first failure ends
/// it. The answer for a file that could be read calls it by the last name of its path, not by the
/// whole path.
pub fn upload_file_stream(file_path: &str, event: UploadEvent) -> (step: UploadStep)
    ensures
        is_plain_path(file_path@) ==> is_upload_step(last_name(file_path@), event, step),
        exists|file_name: Option<Seq<char>>|
            can_be_file_name(file_path@, file_name) && #[trigger] is_upload_step(
                file_name,
                event,
                step,
            ),
        exists|name: Option<String>| #[trigger]
            is_name_given(file_path, name) && is_upload_step(text_view(name), event, step),
{
    let name = path_file_name(file_path);
    let step = match &name {
        Some(text) => upload_step(Some(text.as_str()), event),
        None => upload_step(None, event),
    };
    assert(is_name_given(file_path, name) && is_upload_step(text_view(name), event, step));
    step
}

/// The step that follows an event, for a file with a name that can be shown or without one.
pub fn upload_step(file_name: Option<&str>, event: UploadEvent) -> (step: UploadStep)
    ensures
        is_upload_step(name_view(file_name), event, step),
{
    match event {
        UploadEvent::Measured(outcome) => match outcome {
            Ok(size) => UploadStep::Open { size },
            Err(reason) => UploadStep::Finish {
                answer: Err(joined("Błąd odczytu metadanych: ", reason.as_str())),
            },
        },
        UploadEvent::Opened { size, outcome } => match outcome {
            Ok(()) => {
                let name: &str = match file_name {
                    Some(text) => text,
                    None => "unknown",
                };
                let mut message = joined("Zakończono odczyt pliku (", name);
                message.append(") o rozmiarze ");
                message.append(decimal(size).as_str());
                message.append(" bajtów.");
                UploadStep::Finish { answer: Ok(message) }
            },
            Err(reason) => UploadStep::Finish {
                answer: Err(joined("Błąd otwarcia pliku: ", reason.as_str())),
            },
        },
    }
}

/// What a notification says of an attachment that has been saved.
#[derive(Debug)]
pub struct DownloadNotice {
    pub title: String,
    pub body: String,
}

/// The notification for a download that has ended. The webview saves attachments without a sign,
/// so a success is announced; a failure is not. A file without a name that can be shown is called
/// `plik`.
pub fn download_finished(success: bool, file_name: Option<&str>, full_path: Option<&str>) -> (notice:
    Option<DownloadNotice>)
    ensures
        success <==> notice is Some,
        notice matches Some(n) ==> {
            &&& n.title@ == "Pobrano: "@ + match file_name {
                Some(name) => name@,
                None => "plik"@,
            }
            &&& n.body@ == match full_path {
                Some(path) => path@,
                None => Seq::empty(),
            }
        },
{
    if !success {
        return None;
    }
    let name: &str = match file_name {
        Some(text) => text,
        None => "plik",
    };
    let body: String = match full_path {
        Some(path) => path.to_owned(),
        None => String::new(),
    };
    Some(DownloadNotice { title: joined("Pobrano: ", name), body })
}

/// The text can name a file in a folder.
pub open spec fn is_file_name(name: Seq<char>) -> bool {
    &&& name.len() > 0
    &&& forall|k: int| 0 <= k < name.len() ==> #[trigger] name[k] != '/'
    &&& name != "."@
    &&& name != ".."@
}

/// The last segment of a text that ends in a separator, if it has one, and goes on without any.
proof fn lemma_last_segment(front: Seq<char>, name: Seq<char>)
    requires
        front.len() == 0 || front.last() == '/',
        forall|k: int| 0 <= k < name.len() ==> #[trigger] name[k] != '/',
    ensures
        last_segment(front + name) == name,
    decreases name.len(),
{
    let path = front + name;
    if name.len() == 0 {
        assert(path == front);
    } else {
        assert(path.drop_last() == front + name.drop_last());
        assert(path.last() == name.last());
        lemma_last_segment(front, name.drop_last());
        assert(name.drop_last().push(name.last()) == name);
    }
}

/// A file in a folder is called by its own name in the answer, whatever the folder is: no part of
/// the path before the name is shown.
pub proof fn files_are_called_by_their_own_name(
    folder: Seq<char>,
    name: Seq<char>,
    file_name: Option<Seq<char>>,
    size: nat,
)
    requires
        folder.len() == 0 || folder.last() == '/',
        is_file_name(name),
        is_plain_path(folder + name),
        can_be_file_name(folder + name, file_name),
    ensures
        file_name == Some(name),
        read_message(file_name, size) == "Zakończono odczyt pliku ("@ + name + ") o rozmiarze "@
            + decimal_text(size) + " bajtów."@,
{
    lemma_last_segment(folder, name);
}

/// The last segment of a path ends the path and has no separator.
proof fn lemma_segment_ends_path(path: Seq<char>)
    ensures
        last_segment(path).len() <= path.len(),
        path.skip(path.len() - last_segment(path).len()) == last_segment(path),
        forall|k: int| 0 <= k < last_segment(path).len() ==> #[trigger] last_segment(path)[k] != '/',
    decreases path.len(),
{
    let segment = last_segment(path);
    if path.len() > 0 && path.last() != '/' {
        let shorter = path.drop_last();
        lemma_segment_ends_path(shorter);
        let at = path.len() - segment.len();
        assert(path.skip(at) =~= segment) by {
            assert forall|k: int| 0 <= k < segment.len() implies path.skip(at)[k] == segment[k] by {
                if k < segment.len() - 1 {
                    assert(shorter.skip(at)[k] == last_segment(shorter)[k]);
                }
            }
        }
    }
}

/// The last name of a path is a name that stands in the path, with nothing but separators and
/// dots behind it.
pub proof fn last_names_stand_in_their_path(path: Seq<char>)
    ensures
        last_name(path) matches Some(name) ==> is_file_name(name) && exists|at: int|
            ends_path_at(path, name, at),
    decreases path.len(),
{
    let segment = last_segment(path);
    reveal_strlit(".");
    lemma_segment_ends_path(path);
    if path.len() == 0 || segment == ".."@ {
    } else if segment.len() == 0 || segment == "."@ {
        let shorter = path.drop_last();
        last_names_stand_in_their_path(shorter);
        assert(is_path_filler(path.last())) by {
            if segment.len() != 0 {
                assert(path.skip(path.len() - 1)[0] == segment[0]);
            }
        }
        if let Some(name) = last_name(shorter) {
            let at = choose|at: int| ends_path_at(shorter, name, at);
            assert(path.subrange(at, at + name.len()) == shorter.subrange(at, at + name.len()));
            assert forall|k: int| at + name.len() <= k < path.len() implies is_path_filler(
                #[trigger] path[k],
            ) by {
                if k < shorter.len() {
                    assert(shorter[k] == path[k]);
                }
            }
            assert(ends_path_at(path, name, at));
        }
    } else {
        let at = path.len() - segment.len();
        assert(path.subrange(at, at + segment.len()) == segment);
        assert(ends_path_at(path, segment, at));
    }
}

/// A separator at the end of a path changes nothing of its last name.
pub proof fn separators_at_the_end_do_not_count(path: Seq<char>)
    ensures
        last_name(path.push('/')) == last_name(path),
{
    let longer = path.push('/');
    assert(longer.drop_last() == path);
    assert(last_segment(longer).len() == 0);
    reveal_strlit("..");
    assert(last_segment(longer) != ".."@);
}

/// A file whose size is known is opened next, whatever its path and its size are.
pub proof fn measured_files_are_opened(
    path: &str,
    file_name: Option<&str>,
    size: u64,
    step: UploadStep,
    named: UploadStep,
)
    requires
        call_ensures(upload_file_stream, (path, UploadEvent::Measured(Ok(size))), step),
        call_ensures(upload_step, (file_name, UploadEvent::Measured(Ok(size))), named),
    ensures
        step == (UploadStep::Open { size }),
        named == (UploadStep::Open { size }),
{
}

/// A failure ends the upload: the answer is the reason behind a word on what failed, whatever the
/// file is called. Without a failure there is none in the answer.
pub proof fn upload_failures_are_answered(
    path: &str,
    file_name: Option<&str>,
    event: UploadEvent,
    step: UploadStep,
)
    requires
        call_ensures(upload_file_stream, (path, event), step) || call_ensures(
            upload_step,
            (file_name, event),
            step,
        ),
    ensures
        event matches UploadEvent::Measured(Err(reason)) ==> step matches UploadStep::Finish {
            answer: Err(message),
        } && message@ == "Błąd odczytu metadanych: "@ + reason@,
        event matches UploadEvent::Opened { outcome: Err(reason), .. }
            ==> step matches UploadStep::Finish { answer: Err(message) } && message@
            == "Błąd otwarcia pliku: "@ + reason@,
        step matches UploadStep::Finish { answer: Ok(_) } ==> event matches UploadEvent::Opened {
            outcome: Ok(_),
            ..
        },
{
}

/// A success names the file and its size: the name stands in brackets, and the digits behind it
/// spell the size. A file without a name is called `unknown`.
pub proof fn success_names_file_and_size(
    file_name: Option<&str>,
    size: u64,
    step: UploadStep,
    shown: Seq<char>,
)
    requires
        call_ensures(
            upload_step,
            (file_name, UploadEvent::Opened { size, outcome: Ok(()) }),
            step,
        ),
        shown == match file_name {
            Some(name) => name@,
            None => "unknown"@,
        },
    ensures
        step matches UploadStep::Finish { answer: Ok(message) } && tells_file_and_size(
            message@,
            shown,
            size as int,
        ),
{
    lemma_read_message(name_view(file_name), size as nat, shown);
}

/// The message says that a file with this name was read, and spells its size in decimal.
pub open spec fn tells_file_and_size(message: Seq<char>, shown: Seq<char>, size: int) -> bool {
    exists|digits: Seq<char>|
        {
            &&& #[trigger] decimal_value(digits) == size
            &&& digits.len() > 0
            &&& forall|i: int| 0 <= i < digits.len() ==> '0' <= #[trigger] digits[i] <= '9'
            &&& digits.len() > 1 ==> digits[0] != '0'
            &&& message == "Zakończono odczyt pliku ("@ + shown + ") o rozmiarze "@ + digits
                + " bajtów."@
        }
}

/// The answer for a file that could be read tells its name and its size.
proof fn lemma_read_message(file_name: Option<Seq<char>>, size: nat, shown: Seq<char>)
    requires
        shown == match file_name {
            Some(name) => name,
            None => "unknown"@,
        },
    ensures
        tells_file_and_size(read_message(file_name, size), shown, size as int),
{
    decimal_text_spells_the_number(size);
    assert(decimal_value(decimal_text(size)) == size);
}

/// A file that was uploaded from a folder is called by its own name, and its size is told, whatever
/// the folder is called. The path holds no `\` and no `:`, and does not begin with two separators.
pub proof fn uploads_are_called_by_their_own_name(
    path: &str,
    folder: Seq<char>,
    name: Seq<char>,
    size: u64,
    step: UploadStep,
)
    requires
        path@ == folder + name,
        folder.len() == 0 || folder.last() == '/',
        folder.len() < 2 || folder[0] != '/' || folder[1] != '/',
        name.len() > 0,
        name != "."@,
        name != ".."@,
        forall|k: int| 0 <= k < name.len() ==> #[trigger] name[k] != '/',
        forall|k: int| 0 <= k < path@.len() ==> #[trigger] path@[k] != '\\' && path@[k] != ':',
        call_ensures(
            upload_file_stream,
            (path, UploadEvent::Opened { size, outcome: Ok(()) }),
            step,
        ),
    ensures
        step matches UploadStep::Finish { answer: Ok(message) } && tells_file_and_size(
            message@,
            name,
            size as int,
        ),
{
    reveal_strlit("//");
    if begins_with(path@, "//"@) {
        assert(path@.subrange(0, 2)[0] == '/');
        assert(path@.subrange(0, 2)[1] == '/');
        if folder.len() < 2 {
            assert(path@[1] == name[1 - folder.len()]);
        }
    }
    lemma_last_segment(folder, name);
    assert(last_name(path@) == Some(name));
    lemma_read_message(Some(name), size as nat, name);
}

/// On every path the file is called by the name that the system gives it, and by no other; it is
/// `unknown` only where the system gives none.
pub proof fn uploads_are_called_as_the_system_says(path: &str, size: u64, step: UploadStep)
    requires
        call_ensures(
            upload_file_stream,
            (path, UploadEvent::Opened { size, outcome: Ok(()) }),
            step,
        ),
    ensures
        step matches UploadStep::Finish { answer: Ok(message) } && exists|name: Option<String>|
            {
                &&& #[trigger] is_name_given(path, name)
                &&& tells_file_and_size(
                    message@,
                    match name {
                        Some(text) => text@,
                        None => "unknown"@,
                    },
                    size as int,
                )
            },
{
    let event = UploadEvent::Opened { size, outcome: Ok(()) };
    let name = choose|name: Option<String>| #[trigger]
        is_name_given(path, name) && is_upload_step(text_view(name), event, step);
    let shown = match name {
        Some(text) => text@,
        None => "unknown"@,
    };
    lemma_read_message(text_view(name), size as nat, shown);
    assert(is_name_given(path, name));
}

/// A folder above, named by `..` at the end of a path, has no name to show.
pub proof fn folders_above_have_no_name(path: &str, folder: Seq<char>, size: u64, step: UploadStep)
    requires
        path@ == folder + ".."@,
        folder.len() == 0 || folder.last() == '/',
        folder.len() < 2 || folder[0] != '/' || folder[1] != '/',
        forall|k: int| 0 <= k < path@.len() ==> #[trigger] path@[k] != '\\' && path@[k] != ':',
        call_ensures(
            upload_file_stream,
            (path, UploadEvent::Opened { size, outcome: Ok(()) }),
            step,
        ),
    ensures
        step matches UploadStep::Finish { answer: Ok(message) } && tells_file_and_size(
            message@,
            "unknown"@,
            size as int,
        ),
{
    reveal_strlit("//");
    reveal_strlit("..");
    if begins_with(path@, "//"@) {
        assert(path@.subrange(0, 2)[0] == '/');
        assert(path@.subrange(0, 2)[1] == '/');
        if folder.len() < 2 {
            assert(path@[1] == ".."@[1 - folder.len()]);
        }
    }
    lemma_last_segment(folder, ".."@);
    lemma_read_message(None, size as nat, "unknown"@);
}

/// A separator, or a separator and a dot, at the end of a path changes nothing of the answer.
pub proof fn uploads_ignore_separators_at_the_end(
    path: &str,
    longer: &str,
    size: u64,
    step: UploadStep,
    same: UploadStep,
)
    requires
        longer@ == path@.push('/') || longer@ == path@.push('/').push('.'),
        path@.len() > 0,
        path@ != "/"@,
        path@.len() < 2 || path@[0] != '/' || path@[1] != '/',
        forall|k: int| 0 <= k < path@.len() ==> #[trigger] path@[k] != '\\' && path@[k] != ':',
        call_ensures(
            upload_file_stream,
            (path, UploadEvent::Opened { size, outcome: Ok(()) }),
            step,
        ),
        call_ensures(
            upload_file_stream,
            (longer, UploadEvent::Opened { size, outcome: Ok(()) }),
            same,
        ),
    ensures
        step matches UploadStep::Finish { answer: Ok(message) } && (
        same matches UploadStep::Finish { answer: Ok(other) } && other@ == message@),
{
    reveal_strlit("//");
    reveal_strlit("/");
    reveal_strlit(".");
    reveal_strlit("..");
    if begins_with(path@, "//"@) {
        assert(path@.subrange(0, 2)[0] == '/');
        assert(path@.subrange(0, 2)[1] == '/');
    }
    if begins_with(longer@, "//"@) {
        assert(longer@.subrange(0, 2)[0] == '/');
        assert(longer@.subrange(0, 2)[1] == '/');
        assert(path@[0] == longer@[0]);
        if path@.len() == 1 {
            assert(path@ == "/"@);
        }
    }
    let slashed = path@.push('/');
    separators_at_the_end_do_not_count(path@);
    if longer@ == slashed.push('.') {
        assert(slashed + "."@ == longer@);
        lemma_last_segment(slashed, "."@);
        assert("."@ != ".."@) by {
            assert("."@.len() == 1);
        }
        assert(longer@.drop_last() == slashed);
        assert(last_name(longer@) == last_name(slashed));
    }
    assert(last_name(longer@) == last_name(path@));
}

/// A download is announced exactly where it succeeded: by its name, or as `plik` where it has none,
/// and with the whole path as the text.
pub proof fn downloads_are_announced(
    success: bool,
    file_name: Option<&str>,
    full_path: Option<&str>,
    notice: Option<DownloadNotice>,
)
    requires
        call_ensures(download_finished, (success, file_name, full_path), notice),
    ensures
        notice is Some <==> success,
        notice matches Some(n) ==> {
            &&& file_name matches Some(name) ==> n.title@ == "Pobrano: "@ + name@
            &&& file_name is None ==> n.title@ == "Pobrano: "@ + "plik"@
            &&& full_path matches Some(path) ==> n.body@ == path@
            &&& full_path is None ==> n.body@.len() == 0
        },
{
}

} // verus!
