//! Speech through the system's `say` command.

use crate::paper::strs;
use crate::text::{decimal, decimal_chars, string_of};
use vstd::prelude::*;

verus! {

/// The system voice, with an optional voice name and a rate in words per minute.
pub struct SystemSay {
    voice: Option<String>,
    speed: u32,
}

/// The settings of the system voice.
pub struct SayView {
    pub voice: Option<Seq<char>>,
    pub speed: u32,
}

impl View for SystemSay {
    type V = SayView;

    closed spec fn view(&self) -> SayView {
        SayView {
            voice: match self.voice {
                Some(v) => Some(v@),
                None => None,
            },
            speed: self.speed,
        }
    }
}

/// The arguments of `say` for a text: the text, `-v` and the voice when one is
/// chosen, `-r` and the rate.
pub open spec fn say_arguments(text: Seq<char>, v: SayView) -> Seq<Seq<char>> {
    seq![text] + match v.voice {
        Some(name) => seq!["-v"@, name],
        None => Seq::empty(),
    } + seq!["-r"@, decimal(v.speed as nat)]
}

impl SystemSay {
    /// The default voice at 200 words per minute.
    pub fn new() -> (s: SystemSay)
        ensures
            s@.voice is None,
            s@.speed == 200,
    {
        SystemSay { voice: None, speed: 200 }
    }

    /// The same, with the named voice.
    pub fn with_voice(self, voice: &str) -> (s: SystemSay)
        ensures
            s@.voice == Some(voice@),
            s@.speed == self@.speed,
    {
        let mut s = self;
        s.voice = Some(voice.to_owned());
        s
    }

    /// The same, at `speed` words per minute (100 to 300 are usual).
    pub fn with_speed(self, speed: u32) -> (s: SystemSay)
        ensures
            s@.voice == self@.voice,
            s@.speed == speed,
    {
        let mut s = self;
        s.speed = speed;
        s
    }

    pub fn name(&self) -> (r: &'static str)
        ensures
            r@ == "system_say"@,
    {
        "system_say"
    }

    /// The arguments to run `say` with for `text`.
    pub fn say_args(&self, text: &str) -> (r: Vec<String>)
        ensures
            strs(r@) == say_arguments(text@, self@),
    {
        let mut r: Vec<String> = Vec::new();
        r.push(text.to_owned());
        if let Some(v) = &self.voice {
            r.push("-v".to_owned());
            r.push(v.clone());
        }
        r.push("-r".to_owned());
        r.push(string_of(&decimal_chars(self.speed as u64)));
        assert(strs(r@) =~= say_arguments(text@, self@));
        r
    }
}

impl Default for SystemSay {
    fn default() -> (s: SystemSay)
        ensures
            s@.voice is None,
            s@.speed == 200,
    {
        SystemSay::new()
    }
}

} // verus!
