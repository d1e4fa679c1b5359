//! Run-time options for the display layer. Parsing the command line
//! happens outside this library; the parsed values are handed in here.

use vstd::prelude::*;

verus! {

/// The options the display layer reads.
pub struct Args {
    /// Only handle sources whose identity matches one of these.
    pub whitelist: Vec<String>,
    /// Icon shown while nothing is playing.
    pub play_icon: String,
    /// Icon shown while playing.
    pub pause_icon: String,
    /// Output template with `%icon%`, `%title%`, `%artist%`, `%album%`
    /// and `%player%` placeholders.
    pub format: String,
    /// Pause before restarting a marquee loop, in milliseconds.
    pub delay_on_loop: u32,
    /// Animation update interval, in milliseconds.
    pub effect_speed: u32,
    /// Greatest artist length before overflow; `0` disables the limit.
    pub artist_width: u32,
    /// Greatest title length before overflow; `0` disables the limit.
    pub title_width: u32,
    /// Scroll overflowing text.
    pub marquee: bool,
    /// Truncate overflowing text with an ellipsis.
    pub ellipsis: bool,
}

pub struct ArgsV {
    pub whitelist: Seq<Seq<char>>,
    pub play_icon: Seq<char>,
    pub pause_icon: Seq<char>,
    pub format: Seq<char>,
    pub delay_on_loop: u32,
    pub effect_speed: u32,
    pub artist_width: u32,
    pub title_width: u32,
    pub marquee: bool,
    pub ellipsis: bool,
}

impl View for Args {
    type V = ArgsV;

    open spec fn view(&self) -> ArgsV {
        ArgsV {
            whitelist: self.whitelist.deep_view(),
            play_icon: self.play_icon@,
            pause_icon: self.pause_icon@,
            format: self.format@,
            delay_on_loop: self.delay_on_loop,
            effect_speed: self.effect_speed,
            artist_width: self.artist_width,
            title_width: self.title_width,
            marquee: self.marquee,
            ellipsis: self.ellipsis,
        }
    }
}

impl Default for Args {
    /// The defaults used when an option is not given on the command line.
    fn default() -> (r: Args)
        ensures
            r@.whitelist.len() == 0,
            r@.play_icon.len() == 0,
            r@.pause_icon.len() == 0,
            r@.format == "[ %icon% ] %artist% - %title%"@,
            r@.delay_on_loop == 0,
            r@.effect_speed == 200,
            r@.artist_width == 0,
            r@.title_width == 20,
            !r@.marquee,
            !r@.ellipsis,
    {
        let whitelist: Vec<String> = Vec::new();
        proof {
            assert(whitelist.deep_view() =~= Seq::<Seq<char>>::empty());
        }
        Args {
            whitelist,
            play_icon: String::new(),
            pause_icon: String::new(),
            format: <String as vstd::string::StringExecFns>::from_str("[ %icon% ] %artist% - %title%"),
            delay_on_loop: 0,
            effect_speed: 200,
            artist_width: 0,
            title_width: 20,
            marquee: false,
            ellipsis: false,
        }
    }
}

} // verus!
