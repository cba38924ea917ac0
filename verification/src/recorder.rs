use vstd::prelude::*;
use vstd::string::StringExecFns;

verus! {

/// How long the recorder rests after a finished recording, and between two
/// checks of an offline stream, in seconds.
pub const RECHECK_DELAY_SECS: u64 = 130;

/// An external program to run, with its arguments.
pub struct ProcessCommand {
    pub program: String,
    pub args: Vec<String>,
}

pub struct CommandView {
    pub program: Seq<char>,
    pub args: Seq<Seq<char>>,
}

impl View for ProcessCommand {
    type V = CommandView;

    open spec fn view(&self) -> CommandView {
        CommandView { program: self.program@, args: self.args@.map_values(|a: String| a@) }
    }
}

/// `<username>_<stamp>_v<stream id>`: the name shared by all files of a recording.
pub open spec fn recording_base_name_spec(username: Seq<char>, stamp: Seq<char>, stream_id: Seq<char>) -> Seq<char> {
    username + "_"@ + stamp + "_v"@ + stream_id
}

/// The ffmpeg call that saves a live stream, copying its streams untouched and
/// reconnecting for up to 300 seconds when the connection drops.
pub open spec fn record_command_spec(playback_url: Seq<char>, ts_path: Seq<char>) -> CommandView {
    CommandView {
        program: "ffmpeg"@,
        args: seq![
            "-i"@, playback_url,
            "-c"@, "copy"@,
            "-movflags"@, "use_metadata_tags"@,
            "-map_metadata"@, "0"@,
            "-timeout"@, "300"@,
            "-reconnect"@, "300"@,
            "-reconnect_at_eof"@, "300"@,
            "-reconnect_streamed"@, "300"@,
            "-reconnect_delay_max"@, "300"@,
            "-rtmp_live"@, "live"@,
            ts_path,
        ],
    }
}

/// The ffmpeg call that remuxes a transport stream into MP4.
pub open spec fn remux_command_spec(ts_path: Seq<char>, mp4_path: Seq<char>) -> CommandView {
    CommandView {
        program: "ffmpeg"@,
        args: seq!["-i"@, ts_path, "-c:v"@, "copy"@, "-c:a"@, "copy"@, mp4_path],
    }
}

/// The `mt` call that draws a 4-column contact sheet of 24 captures.
pub open spec fn contact_sheet_command_spec(jpg_path: Seq<char>, mp4_path: Seq<char>) -> CommandView {
    CommandView {
        program: "./mt"@,
        args: seq![
            "--columns=4"@,
            "--numcaps=24"@,
            "--header-meta"@,
            "--fast"@,
            "--comment=Archive - Fansly VODs"@,
            "--output="@ + jpg_path,
            mp4_path,
        ],
    }
}

/// The name shared by the files of one recording.
pub fn recording_base_name(username: &str, stamp: &str, stream_id: &str) -> (name: String)
    ensures
        name@ == recording_base_name_spec(username@, stamp@, stream_id@),
{
    let mut name = username.to_owned();
    name.append("_");
    name.append(stamp);
    name.append("_v");
    name.append(stream_id);
    name
}

/// The layout of a `%Y%m%d_%H%M%S` stamp: it ends with the last four digits
/// of the year, two digits each of month and day, `_`, and two digits each of
/// hour, minute and second (the year may be longer, or signed, before that).
pub open spec fn utc_stamp_shape(stamp: Seq<char>) -> bool {
    &&& stamp.len() >= 15
    &&& stamp[stamp.len() - 7] == '_'
    &&& forall|i: int|
        stamp.len() - 15 <= i < stamp.len() && i != stamp.len() - 7 ==> '0' <= #[trigger] stamp[i] <= '9'
}

/// `chrono::Utc::now().format("%Y%m%d_%H%M%S").to_string()`: the current UTC
/// time. Its value depends on the clock; what is stated is the layout that
/// chrono documents for these specifiers (year zero-padded to at least four
/// digits, the other fields zero-padded to two), not which time it shows.
#[verifier::external_body]
fn utc_stamp_now() -> (stamp: String)
    ensures
        utc_stamp_shape(stamp@),
{
    chrono::Utc::now().format("%Y%m%d_%H%M%S").to_string()
}

/// The base name of a recording that starts now: as `recording_base_name`,
/// with the current UTC time as the stamp.
pub fn recording_base_name_now(username: &str, stream_id: &str) -> (name: String)
    ensures
        exists|stamp: Seq<char>|
            utc_stamp_shape(stamp) && name@ == #[trigger] recording_base_name_spec(username@, stamp, stream_id@),
{
    let stamp = utc_stamp_now();
    let name = recording_base_name(username, stamp.as_str(), stream_id);
    assert(name@ == recording_base_name_spec(username@, stamp@, stream_id@));
    name
}

fn text_list_push(list: &mut Vec<String>, text: &str)
    ensures
        final(list)@.map_values(|a: String| a@) == old(list)@.map_values(|a: String| a@).push(text@),
{
    let ghost before = list@;
    list.push(text.to_owned());
    assert(list@.map_values(|a: String| a@) =~= before.map_values(|a: String| a@).push(text@));
}

/// The command that saves the live stream at `playback_url` to `ts_path`.
pub fn record_command(playback_url: &str, ts_path: &str) -> (c: ProcessCommand)
    ensures
        c@ == record_command_spec(playback_url@, ts_path@),
{
    let mut args: Vec<String> = Vec::new();
    assert(args@.map_values(|a: String| a@) =~= Seq::<Seq<char>>::empty());
    text_list_push(&mut args, "-i");
    text_list_push(&mut args, playback_url);
    text_list_push(&mut args, "-c");
    text_list_push(&mut args, "copy");
    text_list_push(&mut args, "-movflags");
    text_list_push(&mut args, "use_metadata_tags");
    text_list_push(&mut args, "-map_metadata");
    text_list_push(&mut args, "0");
    text_list_push(&mut args, "-timeout");
    text_list_push(&mut args, "300");
    text_list_push(&mut args, "-reconnect");
    text_list_push(&mut args, "300");
    text_list_push(&mut args, "-reconnect_at_eof");
    text_list_push(&mut args, "300");
    text_list_push(&mut args, "-reconnect_streamed");
    text_list_push(&mut args, "300");
    text_list_push(&mut args, "-reconnect_delay_max");
    text_list_push(&mut args, "300");
    text_list_push(&mut args, "-rtmp_live");
    text_list_push(&mut args, "live");
    text_list_push(&mut args, ts_path);
    let c = ProcessCommand { program: "ffmpeg".to_owned(), args };
    assert(c@.args =~= record_command_spec(playback_url@, ts_path@).args);
    c
}

/// The command that remuxes `ts_path` into `mp4_path`.
pub fn remux_command(ts_path: &str, mp4_path: &str) -> (c: ProcessCommand)
    ensures
        c@ == remux_command_spec(ts_path@, mp4_path@),
{
    let mut args: Vec<String> = Vec::new();
    assert(args@.map_values(|a: String| a@) =~= Seq::<Seq<char>>::empty());
    text_list_push(&mut args, "-i");
    text_list_push(&mut args, ts_path);
    text_list_push(&mut args, "-c:v");
    text_list_push(&mut args, "copy");
    text_list_push(&mut args, "-c:a");
    text_list_push(&mut args, "copy");
    text_list_push(&mut args, mp4_path);
    let c = ProcessCommand { program: "ffmpeg".to_owned(), args };
    assert(c@.args =~= remux_command_spec(ts_path@, mp4_path@).args);
    c
}

/// The command that draws the contact sheet of `mp4_path` into `jpg_path`.
pub fn contact_sheet_command(jpg_path: &str, mp4_path: &str) -> (c: ProcessCommand)
    ensures
        c@ == contact_sheet_command_spec(jpg_path@, mp4_path@),
{
    let mut args: Vec<String> = Vec::new();
    assert(args@.map_values(|a: String| a@) =~= Seq::<Seq<char>>::empty());
    text_list_push(&mut args, "--columns=4");
    text_list_push(&mut args, "--numcaps=24");
    text_list_push(&mut args, "--header-meta");
    text_list_push(&mut args, "--fast");
    text_list_push(&mut args, "--comment=Archive - Fansly VODs");
    let mut output = "--output=".to_owned();
    output.append(jpg_path);
    text_list_push(&mut args, output.as_str());
    text_list_push(&mut args, mp4_path);
    let c = ProcessCommand { program: "./mt".to_owned(), args };
    assert(c@.args =~= contact_sheet_command_spec(jpg_path@, mp4_path@).args);
    c
}

/// The recording command runs `ffmpeg`, hands it the playback URL unchanged
/// right after `-i` and the transport stream path unchanged as its last
/// argument; every other argument is the same whatever the URL and path.
pub proof fn lemma_record_command_passes_inputs(u1: Seq<char>, t1: Seq<char>, u2: Seq<char>, t2: Seq<char>)
    ensures
        record_command_spec(u1, t1).program == "ffmpeg"@,
        record_command_spec(u1, t1).args.len() == 21,
        record_command_spec(u1, t1).args[0] == "-i"@,
        record_command_spec(u1, t1).args[1] == u1,
        record_command_spec(u1, t1).args[20] == t1,
        forall|k: int|
            0 <= k < 21 && k != 1 && k != 20 ==> #[trigger] record_command_spec(u1, t1).args[k]
                == record_command_spec(u2, t2).args[k],
{
}

/// The remux command runs `ffmpeg` on the transport stream path unchanged
/// (after `-i`) and writes to the MP4 path unchanged (last); every other
/// argument is the same whatever the paths.
pub proof fn lemma_remux_command_passes_inputs(t1: Seq<char>, m1: Seq<char>, t2: Seq<char>, m2: Seq<char>)
    ensures
        remux_command_spec(t1, m1).program == "ffmpeg"@,
        remux_command_spec(t1, m1).args.len() == 7,
        remux_command_spec(t1, m1).args[0] == "-i"@,
        remux_command_spec(t1, m1).args[1] == t1,
        remux_command_spec(t1, m1).args[6] == m1,
        forall|k: int|
            0 <= k < 7 && k != 1 && k != 6 ==> #[trigger] remux_command_spec(t1, m1).args[k]
                == remux_command_spec(t2, m2).args[k],
{
}

/// The contact sheet command runs `./mt` on the MP4 path unchanged (last)
/// and names the sheet with `--output=` followed by the sheet path
/// unchanged; every other argument is the same whatever the paths.
pub proof fn lemma_contact_sheet_command_passes_inputs(j1: Seq<char>, m1: Seq<char>, j2: Seq<char>, m2: Seq<char>)
    ensures
        contact_sheet_command_spec(j1, m1).program == "./mt"@,
        contact_sheet_command_spec(j1, m1).args.len() == 7,
        contact_sheet_command_spec(j1, m1).args[5] == "--output="@ + j1,
        contact_sheet_command_spec(j1, m1).args[6] == m1,
        forall|k: int|
            0 <= k < 5 ==> #[trigger] contact_sheet_command_spec(j1, m1).args[k]
                == contact_sheet_command_spec(j2, m2).args[k],
{
}

/// A recording's base name starts with the user name and `_`, and ends with
/// `_v` and the stream id, both unchanged.
pub proof fn lemma_base_name_keeps_parts(username: Seq<char>, stamp: Seq<char>, stream_id: Seq<char>)
    ensures
        ({
            let name = recording_base_name_spec(username, stamp, stream_id);
            &&& name.subrange(0, username.len() + 1int) == username + "_"@
            &&& name.subrange(name.len() - stream_id.len() - 2, name.len() as int) == "_v"@ + stream_id
            &&& name.len() == username.len() + stamp.len() + stream_id.len() + 3
        }),
{
    reveal_strlit("_");
    reveal_strlit("_v");
    let name = recording_base_name_spec(username, stamp, stream_id);
    assert(name.subrange(0, username.len() + 1int) =~= username + "_"@);
    assert(name.subrange(name.len() - stream_id.len() - 2, name.len() as int) =~= "_v"@ + stream_id);
}

} // verus!
