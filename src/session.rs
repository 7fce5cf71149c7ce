use vstd::prelude::*;
use crate::config::{Capability, SMTCConfig, config_flag, with_flag};
use crate::metadata::{MusicMetadata, Thumbnail};
use crate::status::{PlaybackStatus, RepeatMode, parse_repeat_mode, repeat_mode_of};
use crate::text::copy_text;
use crate::timeline::{
    NativeTimeline,
    PlaybackTimeline,
    TimelineError,
    native_of,
    seek_order_holds,
    timeline_representable,
    to_native_timeline,
};

verus! {

/// A text property of the display.
#[derive(Clone, Copy, Debug, PartialEq, Eq, Structural)]
pub enum TextField {
    AppMediaId,
    Title,
    Artist,
    AlbumTitle,
    AlbumArtist,
}

/// The display properties of the session: those being prepared, or those shown.
#[derive(Debug)]
pub struct DisplayProps {
    pub app_media_id: Option<String>,
    pub is_music: bool,
    pub title: Option<String>,
    pub artist: Option<String>,
    pub album_title: Option<String>,
    pub album_artist: Option<String>,
    pub thumbnail: Option<Thumbnail>,
}

/// The display properties with every field cleared.
pub open spec fn empty_display() -> DisplayProps {
    DisplayProps {
        app_media_id: None,
        is_music: false,
        title: None,
        artist: None,
        album_title: None,
        album_artist: None,
        thumbnail: None,
    }
}

/// The display properties with one text field set.
pub open spec fn with_text(d: DisplayProps, f: TextField, v: String) -> DisplayProps {
    match f {
        TextField::AppMediaId => DisplayProps { app_media_id: Some(v), ..d },
        TextField::Title => DisplayProps { title: Some(v), ..d },
        TextField::Artist => DisplayProps { artist: Some(v), ..d },
        TextField::AlbumTitle => DisplayProps { album_title: Some(v), ..d },
        TextField::AlbumArtist => DisplayProps { album_artist: Some(v), ..d },
    }
}

fn copy_thumbnail(t: &Option<Thumbnail>) -> (r: Option<Thumbnail>)
    ensures
        r == *t,
{
    match t {
        Some(x) => Some(x.copy()),
        None => None,
    }
}

impl DisplayProps {
    /// Display properties with every field cleared.
    pub fn empty() -> (r: DisplayProps)
        ensures
            r == empty_display(),
    {
        DisplayProps {
            app_media_id: None,
            is_music: false,
            title: None,
            artist: None,
            album_title: None,
            album_artist: None,
            thumbnail: None,
        }
    }

    /// A copy of these properties.
    pub fn copy(&self) -> (r: DisplayProps)
        ensures
            r == *self,
    {
        DisplayProps {
            app_media_id: copy_text(&self.app_media_id),
            is_music: self.is_music,
            title: copy_text(&self.title),
            artist: copy_text(&self.artist),
            album_title: copy_text(&self.album_title),
            album_artist: copy_text(&self.album_artist),
            thumbnail: copy_thumbnail(&self.thumbnail),
        }
    }
}

/// One write to the native transport controls.
#[derive(Debug)]
pub enum NativeWrite {
    /// Whether the platform's built-in command handling is on.
    SetCommandManagerEnabled(bool),
    /// Whether the session is shown to the operating system at all.
    SetEnabled(bool),
    SetCapability(Capability, bool),
    /// Clears every display property being prepared.
    ClearDisplay,
    SetText(TextField, String),
    /// Marks the display being prepared as music.
    SetMusicType,
    SetThumbnail(Option<Thumbnail>),
    /// Shows the display properties prepared so far.
    CommitDisplay,
    UpdateTimeline(NativeTimeline),
    SetPlaybackStatus(PlaybackStatus),
    SetShuffle(bool),
    SetRepeatMode(RepeatMode),
}

/// The state of the native transport controls, as the writes leave it.
#[derive(Debug)]
pub struct NativeSession {
    pub enabled: bool,
    pub command_manager_enabled: bool,
    pub capabilities: SMTCConfig,
    pub pending: DisplayProps,
    pub shown: DisplayProps,
    pub timeline: NativeTimeline,
    pub status: PlaybackStatus,
    pub shuffle: bool,
    pub repeat: RepeatMode,
}

/// The state after one write.
pub open spec fn apply_write(s: NativeSession, w: NativeWrite) -> NativeSession {
    match w {
        NativeWrite::SetCommandManagerEnabled(b) => NativeSession { command_manager_enabled: b, ..s },
        NativeWrite::SetEnabled(b) => NativeSession { enabled: b, ..s },
        NativeWrite::SetCapability(cap, b) => NativeSession {
            capabilities: with_flag(s.capabilities, cap, b),
            ..s
        },
        NativeWrite::ClearDisplay => NativeSession { pending: empty_display(), ..s },
        NativeWrite::SetText(f, v) => NativeSession { pending: with_text(s.pending, f, v), ..s },
        NativeWrite::SetMusicType => NativeSession {
            pending: DisplayProps { is_music: true, ..s.pending },
            ..s
        },
        NativeWrite::SetThumbnail(t) => NativeSession {
            pending: DisplayProps { thumbnail: t, ..s.pending },
            ..s
        },
        NativeWrite::CommitDisplay => NativeSession { shown: s.pending, ..s },
        NativeWrite::UpdateTimeline(t) => NativeSession { timeline: t, ..s },
        NativeWrite::SetPlaybackStatus(st) => NativeSession { status: st, ..s },
        NativeWrite::SetShuffle(b) => NativeSession { shuffle: b, ..s },
        NativeWrite::SetRepeatMode(m) => NativeSession { repeat: m, ..s },
    }
}

/// The state after a sequence of writes, in order.
pub open spec fn apply_writes(s: NativeSession, ws: Seq<NativeWrite>) -> NativeSession
    decreases ws.len(),
{
    if ws.len() == 0 {
        s
    } else {
        apply_write(apply_writes(s, ws.drop_last()), ws.last())
    }
}

proof fn lemma_apply_push(s: NativeSession, ws: Seq<NativeWrite>, w: NativeWrite)
    ensures
        apply_writes(s, ws.push(w)) == apply_write(apply_writes(s, ws), w),
{
    assert(ws.push(w).drop_last() =~= ws);
}

proof fn lemma_apply_concat(s: NativeSession, a: Seq<NativeWrite>, b: Seq<NativeWrite>)
    ensures
        apply_writes(s, a + b) == apply_writes(apply_writes(s, a), b),
    decreases b.len(),
{
    if b.len() == 0 {
        assert(a + b =~= a);
    } else {
        lemma_apply_concat(s, a, b.drop_last());
        assert((a + b).drop_last() =~= a + b.drop_last());
    }
}

impl NativeSession {
    /// A session that is disabled, offers no command and shows nothing.
    pub fn new() -> (r: NativeSession)
        ensures
            !r.enabled,
            r.command_manager_enabled,
            forall|cap: Capability| !config_flag(r.capabilities, cap),
            r.pending == empty_display(),
            r.shown == empty_display(),
            r.timeline == (NativeTimeline {
                start_time: 0,
                end_time: 0,
                position: 0,
                min_seek_time: 0,
                max_seek_time: 0,
            }),
            r.status == PlaybackStatus::Closed,
            !r.shuffle,
            r.repeat == RepeatMode::Off,
    {
        NativeSession {
            enabled: false,
            command_manager_enabled: true,
            capabilities: SMTCConfig {
                play_enabled: false,
                pause_enabled: false,
                next_enabled: false,
                prev_enabled: false,
                fast_forward_enabled: false,
                rewind_enabled: false,
                stop_enabled: false,
            },
            pending: DisplayProps::empty(),
            shown: DisplayProps::empty(),
            timeline: NativeTimeline {
                start_time: 0,
                end_time: 0,
                position: 0,
                min_seek_time: 0,
                max_seek_time: 0,
            },
            status: PlaybackStatus::Closed,
            shuffle: false,
            repeat: RepeatMode::Off,
        }
    }

    /// Performs one write.
    pub fn apply(&mut self, w: &NativeWrite)
        ensures
            *final(self) == apply_write(*old(self), *w),
    {
        match w {
            NativeWrite::SetCommandManagerEnabled(b) => self.command_manager_enabled = *b,
            NativeWrite::SetEnabled(b) => self.enabled = *b,
            NativeWrite::SetCapability(cap, b) => self.capabilities.set_flag(*cap, *b),
            NativeWrite::ClearDisplay => self.pending = DisplayProps::empty(),
            NativeWrite::SetText(f, v) => match f {
                TextField::AppMediaId => self.pending.app_media_id = Some(v.clone()),
                TextField::Title => self.pending.title = Some(v.clone()),
                TextField::Artist => self.pending.artist = Some(v.clone()),
                TextField::AlbumTitle => self.pending.album_title = Some(v.clone()),
                TextField::AlbumArtist => self.pending.album_artist = Some(v.clone()),
            },
            NativeWrite::SetMusicType => self.pending.is_music = true,
            NativeWrite::SetThumbnail(t) => self.pending.thumbnail = copy_thumbnail(t),
            NativeWrite::CommitDisplay => self.shown = self.pending.copy(),
            NativeWrite::UpdateTimeline(t) => self.timeline = *t,
            NativeWrite::SetPlaybackStatus(st) => self.status = *st,
            NativeWrite::SetShuffle(b) => self.shuffle = *b,
            NativeWrite::SetRepeatMode(m) => self.repeat = *m,
        }
    }

    /// Performs the writes in order.
    pub fn apply_all(&mut self, ws: &Vec<NativeWrite>)
        ensures
            *final(self) == apply_writes(*old(self), ws@),
    {
        let ghost start = *self;
        let mut i: usize = 0;
        while i < ws.len()
            invariant
                i <= ws@.len(),
                *self == apply_writes(start, ws@.subrange(0, i as int)),
            decreases ws@.len() - i,
        {
            proof {
                lemma_apply_push(start, ws@.subrange(0, i as int), ws@[i as int]);
                assert(ws@.subrange(0, i as int).push(ws@[i as int]) =~= ws@.subrange(0, i + 1));
            }
            self.apply(&ws[i]);
            i += 1;
        }
        assert(ws@.subrange(0, i as int) =~= ws@);
    }
}

/// The writes that open a session: built-in command handling off, then the session
/// enabled as asked (enabled when unspecified).
pub open spec fn open_plan(enabled: Option<bool>) -> Seq<NativeWrite> {
    seq![
        NativeWrite::SetCommandManagerEnabled(false),
        NativeWrite::SetEnabled(
            match enabled {
                Some(b) => b,
                None => true,
            },
        ),
    ]
}

/// The writes that apply a configuration: one per flag.
pub open spec fn config_plan(c: SMTCConfig) -> Seq<NativeWrite> {
    seq![
        NativeWrite::SetCapability(Capability::Play, c.play_enabled),
        NativeWrite::SetCapability(Capability::Pause, c.pause_enabled),
        NativeWrite::SetCapability(Capability::Next, c.next_enabled),
        NativeWrite::SetCapability(Capability::Previous, c.prev_enabled),
        NativeWrite::SetCapability(Capability::FastForward, c.fast_forward_enabled),
        NativeWrite::SetCapability(Capability::Rewind, c.rewind_enabled),
        NativeWrite::SetCapability(Capability::Stop, c.stop_enabled),
    ]
}

/// The write of one text field, if it is present.
pub open spec fn text_step(f: TextField, o: Option<String>) -> Seq<NativeWrite> {
    match o {
        Some(v) => seq![NativeWrite::SetText(f, v)],
        None => Seq::empty(),
    }
}

/// The writes that publish metadata: clear, the application id if given, the music
/// type, each present field, the resolved thumbnail (or none), then commit.
pub open spec fn metadata_plan(
    m: MusicMetadata,
    app_id: Option<String>,
    thumbnail: Option<Thumbnail>,
) -> Seq<NativeWrite> {
    seq![NativeWrite::ClearDisplay] + text_step(TextField::AppMediaId, app_id) + seq![
        NativeWrite::SetMusicType,
    ] + text_step(TextField::Artist, m.artist) + text_step(TextField::AlbumTitle, m.album)
        + text_step(TextField::Title, m.title) + text_step(TextField::AlbumArtist, m.album_artist)
        + seq![NativeWrite::SetThumbnail(thumbnail), NativeWrite::CommitDisplay]
}

/// The writes that clear the display: clear, then commit.
pub open spec fn clear_plan() -> Seq<NativeWrite> {
    seq![NativeWrite::ClearDisplay, NativeWrite::CommitDisplay]
}

/// The writes of `open_plan`.
pub fn new_plan(enabled: Option<bool>) -> (r: Vec<NativeWrite>)
    ensures
        r@ == open_plan(enabled),
{
    let on = match enabled {
        Some(b) => b,
        None => true,
    };
    let r = vec![NativeWrite::SetCommandManagerEnabled(false), NativeWrite::SetEnabled(on)];
    assert(r@ =~= open_plan(enabled));
    r
}

/// The writes of `config_plan`.
pub fn update_config_plan(c: &SMTCConfig) -> (r: Vec<NativeWrite>)
    ensures
        r@ == config_plan(*c),
{
    let r = vec![
        NativeWrite::SetCapability(Capability::Play, c.play_enabled),
        NativeWrite::SetCapability(Capability::Pause, c.pause_enabled),
        NativeWrite::SetCapability(Capability::Next, c.next_enabled),
        NativeWrite::SetCapability(Capability::Previous, c.prev_enabled),
        NativeWrite::SetCapability(Capability::FastForward, c.fast_forward_enabled),
        NativeWrite::SetCapability(Capability::Rewind, c.rewind_enabled),
        NativeWrite::SetCapability(Capability::Stop, c.stop_enabled),
    ];
    assert(r@ =~= config_plan(*c));
    r
}

fn push_text(plan: &mut Vec<NativeWrite>, f: TextField, o: &Option<String>)
    ensures
        final(plan)@ == old(plan)@ + text_step(f, *o),
{
    match o {
        Some(v) => {
            plan.push(NativeWrite::SetText(f, v.clone()));
            assert(final(plan)@ =~= old(plan)@ + text_step(f, *o));
        },
        None => {
            assert(old(plan)@ =~= old(plan)@ + text_step(f, *o));
        },
    }
}

/// The writes of `metadata_plan`, with `thumbnail` the artwork as resolved: `None`
/// when there is none or it could not be resolved.
pub fn update_metadata_plan(
    m: &MusicMetadata,
    app_id: &Option<String>,
    thumbnail: Option<Thumbnail>,
) -> (r: Vec<NativeWrite>)
    ensures
        r@ == metadata_plan(*m, *app_id, thumbnail),
{
    let mut r: Vec<NativeWrite> = Vec::new();
    r.push(NativeWrite::ClearDisplay);
    push_text(&mut r, TextField::AppMediaId, app_id);
    r.push(NativeWrite::SetMusicType);
    push_text(&mut r, TextField::Artist, &m.artist);
    push_text(&mut r, TextField::AlbumTitle, &m.album);
    push_text(&mut r, TextField::Title, &m.title);
    push_text(&mut r, TextField::AlbumArtist, &m.album_artist);
    r.push(NativeWrite::SetThumbnail(thumbnail));
    r.push(NativeWrite::CommitDisplay);
    assert(r@ =~= metadata_plan(*m, *app_id, thumbnail));
    r
}

/// The writes of `clear_plan`.
pub fn clear_metadata_plan() -> (r: Vec<NativeWrite>)
    ensures
        r@ == clear_plan(),
{
    let r = vec![NativeWrite::ClearDisplay, NativeWrite::CommitDisplay];
    assert(r@ =~= clear_plan());
    r
}

/// The write of a timeline, or why the timeline cannot be written.
pub fn update_timeline_plan(t: &PlaybackTimeline) -> (r: Result<Vec<NativeWrite>, TimelineError>)
    ensures
        !seek_order_holds(*t) ==> r == Err::<Vec<NativeWrite>, TimelineError>(
            TimelineError::SeekOrder,
        ),
        seek_order_holds(*t) && !timeline_representable(*t) ==> r == Err::<
            Vec<NativeWrite>,
            TimelineError,
        >(TimelineError::OutOfRange),
        seek_order_holds(*t) && timeline_representable(*t) ==> r is Ok && r->Ok_0@ == seq![
            NativeWrite::UpdateTimeline(native_of(*t)),
        ],
{
    match to_native_timeline(t) {
        Ok(n) => {
            let r = vec![NativeWrite::UpdateTimeline(n)];
            assert(r@ =~= seq![NativeWrite::UpdateTimeline(n)]);
            Ok(r)
        },
        Err(e) => Err(e),
    }
}

/// The write of a playback status.
pub fn update_playback_status_plan(s: PlaybackStatus) -> (r: Vec<NativeWrite>)
    ensures
        r@ == seq![NativeWrite::SetPlaybackStatus(s)],
{
    let r = vec![NativeWrite::SetPlaybackStatus(s)];
    assert(r@ =~= seq![NativeWrite::SetPlaybackStatus(s)]);
    r
}

/// The write of the shuffle flag.
pub fn update_shuffle_plan(shuffle: bool) -> (r: Vec<NativeWrite>)
    ensures
        r@ == seq![NativeWrite::SetShuffle(shuffle)],
{
    let r = vec![NativeWrite::SetShuffle(shuffle)];
    assert(r@ =~= seq![NativeWrite::SetShuffle(shuffle)]);
    r
}

/// The write of the repeat mode named by `mode`; an unrecognised name means `Off`.
pub fn update_repeat_mode_plan(mode: &str) -> (r: Vec<NativeWrite>)
    ensures
        r@ == seq![NativeWrite::SetRepeatMode(repeat_mode_of(mode@))],
{
    let r = vec![NativeWrite::SetRepeatMode(parse_repeat_mode(mode))];
    assert(r@ =~= seq![NativeWrite::SetRepeatMode(repeat_mode_of(mode@))]);
    r
}

/// The write that enables the session.
pub fn enable_plan() -> (r: Vec<NativeWrite>)
    ensures
        r@ == seq![NativeWrite::SetEnabled(true)],
{
    let r = vec![NativeWrite::SetEnabled(true)];
    assert(r@ =~= seq![NativeWrite::SetEnabled(true)]);
    r
}

/// The write that disables the session.
pub fn disable_plan() -> (r: Vec<NativeWrite>)
    ensures
        r@ == seq![NativeWrite::SetEnabled(false)],
{
    let r = vec![NativeWrite::SetEnabled(false)];
    assert(r@ =~= seq![NativeWrite::SetEnabled(false)]);
    r
}

proof fn lemma_apply_one(s: NativeSession, w: NativeWrite)
    ensures
        apply_writes(s, seq![w]) == apply_write(s, w),
{
    lemma_apply_push(s, Seq::empty(), w);
    assert(Seq::<NativeWrite>::empty().push(w) =~= seq![w]);
}

proof fn lemma_text_step(s: NativeSession, f: TextField, o: Option<String>)
    ensures
        apply_writes(s, text_step(f, o)) == match o {
            Some(v) => apply_write(s, NativeWrite::SetText(f, v)),
            None => s,
        },
{
    if let Some(v) = o {
        lemma_apply_one(s, NativeWrite::SetText(f, v));
    }
}

/// Applying a configuration and reading the flags back gives the configuration, and
/// nothing else changes.
pub proof fn lemma_config_read_back(s: NativeSession, c: SMTCConfig)
    ensures
        apply_writes(s, config_plan(c)) == (NativeSession { capabilities: c, ..s }),
        forall|cap: Capability| config_flag(apply_writes(s, config_plan(c)).capabilities, cap)
            == config_flag(c, cap),
{
    let w1 = NativeWrite::SetCapability(Capability::Play, c.play_enabled);
    let w2 = NativeWrite::SetCapability(Capability::Pause, c.pause_enabled);
    let w3 = NativeWrite::SetCapability(Capability::Next, c.next_enabled);
    let w4 = NativeWrite::SetCapability(Capability::Previous, c.prev_enabled);
    let w5 = NativeWrite::SetCapability(Capability::FastForward, c.fast_forward_enabled);
    let w6 = NativeWrite::SetCapability(Capability::Rewind, c.rewind_enabled);
    let w7 = NativeWrite::SetCapability(Capability::Stop, c.stop_enabled);
    let p0 = Seq::<NativeWrite>::empty();
    let p1 = p0.push(w1);
    let p2 = p1.push(w2);
    let p3 = p2.push(w3);
    let p4 = p3.push(w4);
    let p5 = p4.push(w5);
    let p6 = p5.push(w6);
    let p7 = p6.push(w7);
    lemma_apply_push(s, p0, w1);
    lemma_apply_push(s, p1, w2);
    lemma_apply_push(s, p2, w3);
    lemma_apply_push(s, p3, w4);
    lemma_apply_push(s, p4, w5);
    lemma_apply_push(s, p5, w6);
    lemma_apply_push(s, p6, w7);
    assert(p7 =~= config_plan(c));
}

/// Publishing metadata shows exactly the given fields: each absent field reads back
/// as cleared, the application id is present only when given, and the thumbnail is
/// the resolved one. Nothing outside the display changes.
pub proof fn lemma_metadata_published(
    s: NativeSession,
    m: MusicMetadata,
    app_id: Option<String>,
    thumbnail: Option<Thumbnail>,
)
    ensures
        ({
            let d = DisplayProps {
                app_media_id: app_id,
                is_music: true,
                title: m.title,
                artist: m.artist,
                album_title: m.album,
                album_artist: m.album_artist,
                thumbnail: thumbnail,
            };
            apply_writes(s, metadata_plan(m, app_id, thumbnail)) == (NativeSession {
                pending: d,
                shown: d,
                ..s
            })
        }),
{
    let a = seq![NativeWrite::ClearDisplay];
    let b = text_step(TextField::AppMediaId, app_id);
    let c = seq![NativeWrite::SetMusicType];
    let d = text_step(TextField::Artist, m.artist);
    let e = text_step(TextField::AlbumTitle, m.album);
    let f = text_step(TextField::Title, m.title);
    let g = text_step(TextField::AlbumArtist, m.album_artist);
    let h = seq![NativeWrite::SetThumbnail(thumbnail), NativeWrite::CommitDisplay];
    let e0 = empty_display();
    let d1 = DisplayProps { app_media_id: app_id, ..e0 };
    let d2 = DisplayProps { is_music: true, ..d1 };
    let d3 = DisplayProps { artist: m.artist, ..d2 };
    let d4 = DisplayProps { album_title: m.album, ..d3 };
    let d5 = DisplayProps { title: m.title, ..d4 };
    let d6 = DisplayProps { album_artist: m.album_artist, ..d5 };
    let d7 = DisplayProps { thumbnail: thumbnail, ..d6 };
    let s1 = apply_writes(s, a);
    assert(s1 == NativeSession { pending: e0, ..s }) by {
        lemma_apply_one(s, NativeWrite::ClearDisplay);
    }
    let s2 = apply_writes(s1, b);
    assert(s2 == NativeSession { pending: d1, ..s }) by {
        lemma_text_step(s1, TextField::AppMediaId, app_id);
    }
    let s3 = apply_writes(s2, c);
    assert(s3 == NativeSession { pending: d2, ..s }) by {
        lemma_apply_one(s2, NativeWrite::SetMusicType);
    }
    let s4 = apply_writes(s3, d);
    assert(s4 == NativeSession { pending: d3, ..s }) by {
        lemma_text_step(s3, TextField::Artist, m.artist);
    }
    let s5 = apply_writes(s4, e);
    assert(s5 == NativeSession { pending: d4, ..s }) by {
        lemma_text_step(s4, TextField::AlbumTitle, m.album);
    }
    let s6 = apply_writes(s5, f);
    assert(s6 == NativeSession { pending: d5, ..s }) by {
        lemma_text_step(s5, TextField::Title, m.title);
    }
    let s7 = apply_writes(s6, g);
    assert(s7 == NativeSession { pending: d6, ..s }) by {
        lemma_text_step(s6, TextField::AlbumArtist, m.album_artist);
    }
    let s8 = apply_writes(s7, h);
    assert(s8 == NativeSession { pending: d7, shown: d7, ..s }) by {
        lemma_apply_push(s7, seq![NativeWrite::SetThumbnail(thumbnail)], NativeWrite::CommitDisplay);
        lemma_apply_one(s7, NativeWrite::SetThumbnail(thumbnail));
        assert(seq![NativeWrite::SetThumbnail(thumbnail)].push(NativeWrite::CommitDisplay) =~= h);
    }
    assert(apply_writes(s, metadata_plan(m, app_id, thumbnail)) == s8) by {
        lemma_apply_concat(s, a, b);
        lemma_apply_concat(s, a + b, c);
        lemma_apply_concat(s, a + b + c, d);
        lemma_apply_concat(s, a + b + c + d, e);
        lemma_apply_concat(s, a + b + c + d + e, f);
        lemma_apply_concat(s, a + b + c + d + e + f, g);
        lemma_apply_concat(s, a + b + c + d + e + f + g, h);
    }
}

/// When the thumbnail cannot be resolved, the other fields are still shown.
pub proof fn lemma_thumbnail_failure_keeps_fields(
    s: NativeSession,
    m: MusicMetadata,
    app_id: Option<String>,
)
    ensures
        ({
            let shown = apply_writes(s, metadata_plan(m, app_id, None)).shown;
            &&& shown.title == m.title
            &&& shown.artist == m.artist
            &&& shown.album_title == m.album
            &&& shown.album_artist == m.album_artist
            &&& shown.app_media_id == app_id
            &&& shown.is_music
            &&& shown.thumbnail is None
        }),
{
    lemma_metadata_published(s, m, app_id, None);
}

/// Clearing the metadata shows an empty display.
pub proof fn lemma_clear_shows_nothing(s: NativeSession)
    ensures
        apply_writes(s, clear_plan()) == (NativeSession {
            pending: empty_display(),
            shown: empty_display(),
            ..s
        }),
{
    lemma_apply_push(s, seq![NativeWrite::ClearDisplay], NativeWrite::CommitDisplay);
    lemma_apply_one(s, NativeWrite::ClearDisplay);
    assert(seq![NativeWrite::ClearDisplay].push(NativeWrite::CommitDisplay) =~= clear_plan());
}

/// Enabling leaves the session enabled, and enabling a second time changes nothing;
/// the same holds of disabling.
pub proof fn lemma_enable_idempotent(s: NativeSession)
    ensures
        apply_writes(s, seq![NativeWrite::SetEnabled(true)]).enabled,
        apply_writes(
            apply_writes(s, seq![NativeWrite::SetEnabled(true)]),
            seq![NativeWrite::SetEnabled(true)],
        ) == apply_writes(s, seq![NativeWrite::SetEnabled(true)]),
        !apply_writes(s, seq![NativeWrite::SetEnabled(false)]).enabled,
        apply_writes(
            apply_writes(s, seq![NativeWrite::SetEnabled(false)]),
            seq![NativeWrite::SetEnabled(false)],
        ) == apply_writes(s, seq![NativeWrite::SetEnabled(false)]),
{
    let on = apply_writes(s, seq![NativeWrite::SetEnabled(true)]);
    let off = apply_writes(s, seq![NativeWrite::SetEnabled(false)]);
    lemma_apply_one(s, NativeWrite::SetEnabled(true));
    lemma_apply_one(on, NativeWrite::SetEnabled(true));
    lemma_apply_one(s, NativeWrite::SetEnabled(false));
    lemma_apply_one(off, NativeWrite::SetEnabled(false));
}

} // verus!
