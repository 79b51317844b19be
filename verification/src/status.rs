//! The status publisher: a read-only projection of the playback state,
//! and the composition of the current-track information reply.

use vstd::prelude::*;

verus! {

/// Track metadata from the extractor's sidecar file. Best-effort: it may
/// be absent or stale, which is never an error.
#[derive(Debug, Clone)]
pub struct InfoJson {
    pub id: String,
    pub title: String,
    pub channel: String,
    pub duration: u32,
    pub view_count: u64,
    pub webpage_url: String,
}

/// The mathematical shape of [`InfoJson`].
pub struct InfoModel {
    pub id: Seq<char>,
    pub title: Seq<char>,
    pub channel: Seq<char>,
    pub duration: u32,
    pub view_count: u64,
    pub webpage_url: Seq<char>,
}

impl View for InfoJson {
    type V = InfoModel;

    open spec fn view(&self) -> InfoModel {
        InfoModel {
            id: self.id@,
            title: self.title@,
            channel: self.channel@,
            duration: self.duration,
            view_count: self.view_count,
            webpage_url: self.webpage_url@,
        }
    }
}

/// The snapshot shared between the producer and the status endpoint:
/// elapsed play time, the pause flag, and the current link.
#[derive(Debug, Clone)]
pub struct PlaybackState {
    pub time_passed_ms: u64,
    pub paused: bool,
    pub link: Option<String>,
}

/// What one status query returns. The timestamp is the caller's affair.
#[derive(Debug)]
pub struct StatusSnapshot {
    pub time_passed_ms: u64,
    pub paused: bool,
    pub duration: u32,
    pub link: String,
}

/// Builds the status snapshot: elapsed time and pause flag are taken as
/// they stand; the link defaults to empty; the metadata duration counts
/// only while a link is set, and defaults to zero when the metadata is
/// missing or unreadable.
pub fn status_snapshot(state: &PlaybackState, info_duration: Option<u32>) -> (s: StatusSnapshot)
    ensures
        s.time_passed_ms == state.time_passed_ms,
        s.paused == state.paused,
        s.link@ == (match state.link {
            Some(l) => l@,
            None => Seq::<char>::empty(),
        }),
        s.duration == (if (state.link matches Some(l) && l@.len() > 0) {
            match info_duration {
                Some(d) => d,
                None => 0u32,
            }
        } else {
            0u32
        }),
{
    let link: String = match &state.link {
        Some(l) => l.clone(),
        None => String::new(),
    };
    let duration: u32 = if !link.as_str().is_empty() && state.link.is_some() {
        match info_duration {
            Some(d) => d,
            None => 0,
        }
    } else {
        0
    };
    StatusSnapshot { time_passed_ms: state.time_passed_ms, paused: state.paused, duration, link }
}

/// The current-track information reply.
pub open spec fn info_message(
    playing: bool,
    link: Option<Seq<char>>,
    info: Option<InfoModel>,
) -> Seq<char> {
    let l = match link {
        Some(s) => s,
        None => Seq::<char>::empty(),
    };
    "\nCurrently Playing:\n"@ + (if playing {
        match info {
            Some(i) => "Title: "@ + i.title + "\nChannel: "@ + i.channel + "\nLink: "@ + l,
            None => l,
        }
    } else {
        "Nothing"@
    })
}

/// Composes the information reply: while playing, the track's title and
/// channel when the metadata could be read, else just the link; while
/// idle, a fixed placeholder.
pub fn compose_info_message(
    playing: bool,
    current_link: &Option<String>,
    info: Option<&InfoJson>,
) -> (msg: String)
    ensures
        msg@ == info_message(
            playing,
            match current_link {
                Some(l) => Some(l@),
                None => None,
            },
            match info {
                Some(i) => Some(i@),
                None => None,
            },
        ),
{
    let mut m = String::from_str("\nCurrently Playing:\n");
    if playing {
        match info {
            Some(i) => {
                m.append("Title: ");
                m.append(i.title.as_str());
                m.append("\nChannel: ");
                m.append(i.channel.as_str());
                m.append("\nLink: ");
                match current_link {
                    Some(l) => m.append(l.as_str()),
                    None => {},
                }
            },
            None => {
                match current_link {
                    Some(l) => m.append(l.as_str()),
                    None => {},
                }
            },
        }
    } else {
        m.append("Nothing");
    }
    proof {
        assert(m@ =~= info_message(
            playing,
            match current_link {
                Some(l) => Some(l@),
                None => None,
            },
            match info {
                Some(i) => Some(i@),
                None => None,
            },
        ));
    }
    m
}

} // verus!
