use vstd::prelude::*;
use vstd::string::*;
use crate::message::BroadcastMode;
use crate::text::{chars_of, is_whitespace, is_whitespace_char, string_of};

verus! {

/// Reads `s` left to right: the words completed so far and the word under way.
pub open spec fn scan_words(s: Seq<char>) -> (Seq<Seq<char>>, Seq<char>)
    decreases s.len(),
{
    if s.len() == 0 {
        (Seq::empty(), Seq::empty())
    } else {
        let prev = scan_words(s.drop_last());
        if is_whitespace_char(s.last()) {
            if prev.1.len() > 0 {
                (prev.0.push(prev.1), Seq::empty())
            } else {
                prev
            }
        } else {
            (prev.0, prev.1.push(s.last()))
        }
    }
}

/// The maximal runs of non-white-space characters of `s`, in order
/// (what `str::split_whitespace` yields).
pub open spec fn words(s: Seq<char>) -> Seq<Seq<char>> {
    let st = scan_words(s);
    if st.1.len() > 0 {
        st.0.push(st.1)
    } else {
        st.0
    }
}

/// The words of `s`.
pub fn split_words(s: &Vec<char>) -> (r: Vec<Vec<char>>)
    ensures
        r@.len() == words(s@).len(),
        forall|k: int| 0 <= k < r@.len() ==> (#[trigger] r@[k])@ == words(s@)[k],
{
    let mut ws: Vec<Vec<char>> = Vec::new();
    let mut cur: Vec<char> = Vec::new();
    let ghost mut gws: Seq<Seq<char>> = Seq::empty();
    let mut i: usize = 0;
    while i < s.len()
        invariant
            i <= s@.len(),
            scan_words(s@.subrange(0, i as int)) == (gws, cur@),
            ws@.len() == gws.len(),
            forall|k: int| 0 <= k < ws@.len() ==> (#[trigger] ws@[k])@ == gws[k],
        decreases s@.len() - i,
    {
        let c = s[i];
        assert(s@.subrange(0, i + 1).drop_last() =~= s@.subrange(0, i as int));
        assert(s@.subrange(0, i + 1).last() == c);
        if is_whitespace(c) {
            if cur.len() > 0 {
                let mut done: Vec<char> = Vec::new();
                std::mem::swap(&mut done, &mut cur);
                proof {
                    gws = gws.push(done@);
                }
                ws.push(done);
            }
        } else {
            cur.push(c);
        }
        i = i + 1;
    }
    assert(s@.subrange(0, s@.len() as int) =~= s@);
    if cur.len() > 0 {
        proof {
            gws = gws.push(cur@);
        }
        ws.push(cur);
    }
    ws
}

/// Whether `w` spells `lit`.
pub fn spells(w: &Vec<char>, lit: &str) -> (r: bool)
    ensures
        r == (w@ == lit@),
{
    let l = chars_of(lit);
    if w.len() != l.len() {
        return false;
    }
    let mut i: usize = 0;
    while i < w.len()
        invariant
            w@.len() == l@.len(),
            l@ == lit@,
            i <= w@.len(),
            forall|k: int| 0 <= k < i ==> w@[k] == l@[k],
        decreases w@.len() - i,
    {
        if w[i] != l[i] {
            return false;
        }
        i = i + 1;
    }
    assert(w@ =~= l@);
    true
}

/// Whether word `k` of `ws` is there and spells `lit`.
fn word_is(ws: &Vec<Vec<char>>, k: usize, lit: &str) -> (b: bool)
    ensures
        b == (ws@.len() > k && ws@[k as int]@ == lit@),
{
    ws.len() > k && spells(&ws[k], lit)
}

/// A line typed at the teacher's console.
#[derive(Debug, Clone, PartialEq, Eq)]
pub enum TeacherCommand {
    /// A blank line.
    Empty,
    Help,
    Students,
    StartTeacher(BroadcastMode),
    Stop,
    Spotlight(String),
    SpotlightUsage,
    SendFile { path: String, auto_open: bool },
    SendUsage,
    AudioStart,
    AudioStop,
    AudioForce(bool),
    AudioUsage,
    Quit,
    Unknown(String),
}

/// The command a line of words `ws` is at the teacher's console.
pub open spec fn teacher_command_of(r: TeacherCommand, ws: Seq<Seq<char>>) -> bool {
    if ws.len() == 0 {
        r == TeacherCommand::Empty
    } else if ws[0] == "help"@ {
        r == TeacherCommand::Help
    } else if ws[0] == "students"@ {
        r == TeacherCommand::Students
    } else if ws[0] == "start"@ {
        r == TeacherCommand::StartTeacher(
            if ws.len() >= 2 && ws[1] == "window"@ {
                BroadcastMode::Window
            } else {
                BroadcastMode::Fullscreen
            },
        )
    } else if ws[0] == "stop"@ {
        r == TeacherCommand::Stop
    } else if ws[0] == "spotlight"@ {
        if ws.len() >= 2 {
            r matches TeacherCommand::Spotlight(id) && id@ == ws[1]
        } else {
            r == TeacherCommand::SpotlightUsage
        }
    } else if ws[0] == "send"@ {
        if ws.len() >= 2 {
            r matches TeacherCommand::SendFile { path, auto_open } && path@ == ws[1] && auto_open
                == (ws.len() >= 3 && ws[2] == "open"@)
        } else {
            r == TeacherCommand::SendUsage
        }
    } else if ws[0] == "audio"@ {
        if ws.len() >= 2 && ws[1] == "on"@ {
            r == TeacherCommand::AudioStart
        } else if ws.len() >= 2 && ws[1] == "off"@ {
            r == TeacherCommand::AudioStop
        } else if ws.len() >= 2 && ws[1] == "force"@ {
            r == TeacherCommand::AudioForce(true)
        } else if ws.len() >= 2 && ws[1] == "allow"@ {
            r == TeacherCommand::AudioForce(false)
        } else {
            r == TeacherCommand::AudioUsage
        }
    } else if ws[0] == "quit"@ || ws[0] == "exit"@ {
        r == TeacherCommand::Quit
    } else {
        r matches TeacherCommand::Unknown(w) && w@ == ws[0]
    }
}

/// Reads a line typed at the teacher's console.
pub fn parse_teacher_command(line: &str) -> (r: TeacherCommand)
    ensures
        teacher_command_of(r, words(line@)),
{
    let cs = chars_of(line);
    let ws = split_words(&cs);
    if ws.len() == 0 {
        return TeacherCommand::Empty;
    }
    let first = &ws[0];
    if spells(first, "help") {
        TeacherCommand::Help
    } else if spells(first, "students") {
        TeacherCommand::Students
    } else if spells(first, "start") {
        if word_is(&ws, 1, "window") {
            TeacherCommand::StartTeacher(BroadcastMode::Window)
        } else {
            TeacherCommand::StartTeacher(BroadcastMode::Fullscreen)
        }
    } else if spells(first, "stop") {
        TeacherCommand::Stop
    } else if spells(first, "spotlight") {
        if ws.len() >= 2 {
            TeacherCommand::Spotlight(string_of(&ws[1]))
        } else {
            TeacherCommand::SpotlightUsage
        }
    } else if spells(first, "send") {
        if ws.len() >= 2 {
            let auto_open = ws.len() >= 3 && spells(&ws[2], "open");
            TeacherCommand::SendFile { path: string_of(&ws[1]), auto_open }
        } else {
            TeacherCommand::SendUsage
        }
    } else if spells(first, "audio") {
        if word_is(&ws, 1, "on") {
            TeacherCommand::AudioStart
        } else if word_is(&ws, 1, "off") {
            TeacherCommand::AudioStop
        } else if word_is(&ws, 1, "force") {
            TeacherCommand::AudioForce(true)
        } else if word_is(&ws, 1, "allow") {
            TeacherCommand::AudioForce(false)
        } else {
            TeacherCommand::AudioUsage
        }
    } else if spells(first, "quit") || spells(first, "exit") {
        TeacherCommand::Quit
    } else {
        TeacherCommand::Unknown(string_of(first))
    }
}

/// A line typed at a student's console.
#[derive(Debug, Clone, PartialEq, Eq)]
pub enum StudentCommand {
    /// A blank line.
    Empty,
    Help,
    Upload(String),
    UploadUsage,
    Mute,
    Unmute,
    Quit,
    Unknown(String),
}

/// The command a line of words `ws` is at a student's console.
pub open spec fn student_command_of(r: StudentCommand, ws: Seq<Seq<char>>) -> bool {
    if ws.len() == 0 {
        r == StudentCommand::Empty
    } else if ws[0] == "help"@ {
        r == StudentCommand::Help
    } else if ws[0] == "upload"@ {
        if ws.len() >= 2 {
            r matches StudentCommand::Upload(p) && p@ == ws[1]
        } else {
            r == StudentCommand::UploadUsage
        }
    } else if ws[0] == "mute"@ {
        r == StudentCommand::Mute
    } else if ws[0] == "unmute"@ {
        r == StudentCommand::Unmute
    } else if ws[0] == "quit"@ || ws[0] == "exit"@ {
        r == StudentCommand::Quit
    } else {
        r matches StudentCommand::Unknown(w) && w@ == ws[0]
    }
}

/// Reads a line typed at a student's console.
pub fn parse_student_command(line: &str) -> (r: StudentCommand)
    ensures
        student_command_of(r, words(line@)),
{
    let cs = chars_of(line);
    let ws = split_words(&cs);
    if ws.len() == 0 {
        return StudentCommand::Empty;
    }
    let first = &ws[0];
    if spells(first, "help") {
        StudentCommand::Help
    } else if spells(first, "upload") {
        if ws.len() >= 2 {
            StudentCommand::Upload(string_of(&ws[1]))
        } else {
            StudentCommand::UploadUsage
        }
    } else if spells(first, "mute") {
        StudentCommand::Mute
    } else if spells(first, "unmute") {
        StudentCommand::Unmute
    } else if spells(first, "quit") || spells(first, "exit") {
        StudentCommand::Quit
    } else {
        StudentCommand::Unknown(string_of(first))
    }
}

} // verus!
