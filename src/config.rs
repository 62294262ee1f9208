use vstd::prelude::*;
use vstd::string::*;
use crate::text::{decimal, host_port};

verus! {

/// Parameters of the screen capture pipeline.
#[derive(Debug, Clone, PartialEq, Eq)]
pub struct BroadcastConfig {
    /// Frames captured per second.
    pub fps: u32,
    /// JPEG quality, 1 to 100.
    pub jpeg_quality: u8,
    pub max_width: Option<u32>,
    pub max_height: Option<u32>,
}

impl Default for BroadcastConfig {
    fn default() -> (r: Self)
        ensures
            r.fps == 12,
            r.jpeg_quality == 75,
            r.max_width is None,
            r.max_height is None,
    {
        BroadcastConfig { fps: 12, jpeg_quality: 75, max_width: None, max_height: None }
    }
}

impl BroadcastConfig {
    /// A field-for-field copy.
    pub fn duplicate(&self) -> (r: Self)
        ensures
            r == *self,
    {
        BroadcastConfig {
            fps: self.fps,
            jpeg_quality: self.jpeg_quality,
            max_width: self.max_width,
            max_height: self.max_height,
        }
    }

    /// Holds the frame rate to 1..=60 and the JPEG quality to 1..=100.
    pub fn clamp_limits(&mut self)
        ensures
            final(self).fps == clamp(old(self).fps as int, 1, 60),
            final(self).jpeg_quality == clamp(old(self).jpeg_quality as int, 1, 100),
            final(self).max_width == old(self).max_width,
            final(self).max_height == old(self).max_height,
    {
        if self.fps < 1 {
            self.fps = 1;
        } else if self.fps > 60 {
            self.fps = 60;
        }
        if self.jpeg_quality < 1 {
            self.jpeg_quality = 1;
        } else if self.jpeg_quality > 100 {
            self.jpeg_quality = 100;
        }
    }
}

/// `v` held to `lo..=hi`.
pub open spec fn clamp(v: int, lo: int, hi: int) -> int {
    if v < lo {
        lo
    } else if v > hi {
        hi
    } else {
        v
    }
}

/// A student the teacher expects, for display.
#[derive(Debug, Clone, PartialEq, Eq)]
pub struct StudentRegistration {
    pub student_id: String,
    pub student_name: Option<String>,
    pub seat: Option<String>,
    pub allow_uploads: bool,
}

impl Default for StudentRegistration {
    fn default() -> (r: Self)
        ensures
            r.student_id@ == Seq::<char>::empty(),
            r.student_name is None,
            r.seat is None,
            r.allow_uploads,
    {
        StudentRegistration {
            student_id: String::new(),
            student_name: None,
            seat: None,
            allow_uploads: true,
        }
    }
}

/// Settings of the teacher side.
#[derive(Debug, Clone, PartialEq, Eq)]
pub struct TeacherConfig {
    pub listen_host: String,
    pub listen_port: u16,
    pub enable_audio_by_default: bool,
    pub force_audio: bool,
    /// Where uploads from students are stored, one subdirectory per student.
    pub save_upload_dir: String,
    pub file_auto_open: bool,
    pub broadcast: BroadcastConfig,
    pub expected_students: Vec<StudentRegistration>,
    pub heartbeat_interval_secs: u64,
    pub idle_timeout_secs: u64,
}

impl TeacherConfig {
    /// The address to bind, `host:port`.
    pub fn listen_addr(&self) -> (r: String)
        ensures
            r@ == self.listen_host@ + seq![':'] + decimal(self.listen_port as nat),
    {
        host_port(self.listen_host.as_str(), self.listen_port)
    }
}

impl Default for TeacherConfig {
    fn default() -> (r: Self)
        ensures
            r.listen_host@ == "0.0.0.0"@,
            r.listen_port == 5000,
            !r.enable_audio_by_default,
            !r.force_audio,
            r.save_upload_dir@ == "uploads"@,
            !r.file_auto_open,
            r.broadcast.fps == 12,
            r.broadcast.jpeg_quality == 75,
            r.broadcast.max_width is None,
            r.broadcast.max_height is None,
            r.expected_students@.len() == 0,
            r.heartbeat_interval_secs == 10,
            r.idle_timeout_secs == 30,
    {
        TeacherConfig {
            listen_host: String::from_str("0.0.0.0"),
            listen_port: 5000,
            enable_audio_by_default: false,
            force_audio: false,
            save_upload_dir: String::from_str("uploads"),
            file_auto_open: false,
            broadcast: BroadcastConfig::default(),
            expected_students: Vec::new(),
            heartbeat_interval_secs: 10,
            idle_timeout_secs: 30,
        }
    }
}

/// Settings of a student client.
#[derive(Debug, Clone, PartialEq, Eq)]
pub struct StudentConfig {
    pub teacher_ip: String,
    pub teacher_port: u16,
    pub student_name: String,
    pub student_id: String,
    pub auto_fullscreen: bool,
    /// Where files sent by the teacher are stored.
    pub download_path: String,
    pub auto_open_file: bool,
    /// Whether the teacher may force fullscreen over `auto_fullscreen`.
    pub allow_forced_fullscreen: bool,
}

impl StudentConfig {
    /// The teacher's address, `host:port`.
    pub fn teacher_addr(&self) -> (r: String)
        ensures
            r@ == self.teacher_ip@ + seq![':'] + decimal(self.teacher_port as nat),
    {
        host_port(self.teacher_ip.as_str(), self.teacher_port)
    }
}

impl Default for StudentConfig {
    fn default() -> (r: Self)
        ensures
            r.teacher_ip@ == "127.0.0.1"@,
            r.teacher_port == 5000,
            r.student_name@ == "Student"@,
            r.student_id@ == "S00"@,
            r.auto_fullscreen,
            r.download_path@ == "downloads"@,
            !r.auto_open_file,
            r.allow_forced_fullscreen,
    {
        StudentConfig {
            teacher_ip: String::from_str("127.0.0.1"),
            teacher_port: 5000,
            student_name: String::from_str("Student"),
            student_id: String::from_str("S00"),
            auto_fullscreen: true,
            download_path: String::from_str("downloads"),
            auto_open_file: false,
            allow_forced_fullscreen: true,
        }
    }
}

} // verus!
