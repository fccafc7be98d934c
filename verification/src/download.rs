//! Fetching a track: which step comes next, and what it works on.

use crate::cache;
use crate::decoder;
use crate::decoder::Opening;
use crate::span::Span;
use crate::tag;
use crate::tag::Titling;
use crate::text;
use vstd::prelude::*;
use vstd::string::*;

verus! {

/// A track that has been fetched.
#[derive(Debug)]
pub struct DownloadedTrack {
    pub audio_data: Vec<u8>,
    pub title: String,
    pub duration: Option<Span>,
}

/// What a [`DownloadedTrack`] holds.
pub struct Download {
    pub audio_data: Seq<u8>,
    pub title: Seq<char>,
    pub duration: Option<Span>,
}

impl View for DownloadedTrack {
    type V = Download;

    open spec fn view(&self) -> Download {
        Download {
            audio_data: self.audio_data@,
            title: self.title@,
            duration: self.duration,
        }
    }
}

/// What to do next.
#[derive(Debug)]
pub enum DownloadAction {
    /// Set up the program that fetches videos.
    PrepareFetcher { executables_dir: String, output_dir: String, timeout_secs: u64 },
    /// Look up the video at an address.
    FetchVideo { url: String },
    /// Start to download the video into a file.
    DownloadVideo { path: String },
    /// Wait until the video has arrived.
    WaitForDownload,
    /// Run a program with these arguments.
    ExtractAudio { program: String, arguments: Vec<String> },
    /// Read a whole file.
    ReadAudio { path: String },
    /// Read a file for the title in its tag.
    ReadTitle { path: String },
    /// Open a file and read it, to find out how long it plays.
    OpenAudio { path: String },
    /// Delete the sound file. It does not matter whether that works.
    RemoveAudio { path: String },
    /// Delete the video file. It does not matter whether that works.
    RemoveVideo { path: String },
    /// Tell the user. It does not matter whether that works.
    Report { text: String },
    /// Nothing more: this is how the download ended.
    Finish(Result<DownloadedTrack, String>),
}

/// What a [`DownloadAction`] says.
pub enum Directive {
    PrepareFetcher { executables_dir: Seq<char>, output_dir: Seq<char>, timeout_secs: u64 },
    FetchVideo { url: Seq<char> },
    DownloadVideo { path: Seq<char> },
    WaitForDownload,
    ExtractAudio { program: Seq<char>, arguments: Seq<Seq<char>> },
    ReadAudio { path: Seq<char> },
    ReadTitle { path: Seq<char> },
    OpenAudio { path: Seq<char> },
    RemoveAudio { path: Seq<char> },
    RemoveVideo { path: Seq<char> },
    Report { text: Seq<char> },
    Finish(Result<Download, Seq<char>>),
}

/// The texts of a list of strings.
pub open spec fn texts(strings: Seq<String>) -> Seq<Seq<char>> {
    strings.map_values(|string: String| string@)
}

impl View for DownloadAction {
    type V = Directive;

    open spec fn view(&self) -> Directive {
        match self {
            DownloadAction::PrepareFetcher { executables_dir, output_dir, timeout_secs } =>
                Directive::PrepareFetcher {
                    executables_dir: executables_dir@,
                    output_dir: output_dir@,
                    timeout_secs: *timeout_secs,
                },
            DownloadAction::FetchVideo { url } => Directive::FetchVideo { url: url@ },
            DownloadAction::DownloadVideo { path } => Directive::DownloadVideo { path: path@ },
            DownloadAction::WaitForDownload => Directive::WaitForDownload,
            DownloadAction::ExtractAudio { program, arguments } => Directive::ExtractAudio {
                program: program@,
                arguments: texts(arguments@),
            },
            DownloadAction::ReadAudio { path } => Directive::ReadAudio { path: path@ },
            DownloadAction::ReadTitle { path } => Directive::ReadTitle { path: path@ },
            DownloadAction::OpenAudio { path } => Directive::OpenAudio { path: path@ },
            DownloadAction::RemoveAudio { path } => Directive::RemoveAudio { path: path@ },
            DownloadAction::RemoveVideo { path } => Directive::RemoveVideo { path: path@ },
            DownloadAction::Report { text } => Directive::Report { text: text@ },
            DownloadAction::Finish(Ok(track)) => Directive::Finish(Ok(track@)),
            DownloadAction::Finish(Err(message)) => Directive::Finish(Err(message@)),
        }
    }
}

/// How a step ended.
#[derive(Debug)]
pub enum DownloadEvent {
    /// The fetcher has been set up, or could not be.
    FetcherPrepared(Result<(), String>),
    /// The video has been looked up, or could not be.
    VideoFetched(Result<(), String>),
    /// The download has started, or could not.
    DownloadStarted(Result<(), String>),
    /// The video has arrived.
    DownloadFinished,
    /// The program has ended, with success or not, or could not be run.
    AudioExtracted(Result<bool, String>),
    /// The file has been read, or could not be.
    AudioRead(Result<Vec<u8>, String>),
    /// The file has been read for its tag, or could not be.
    TagRead(Result<Vec<u8>, String>),
    /// The file could not be opened.
    AudioNotOpened,
    /// The file was opened but could not be read.
    AudioNotReadable,
    /// The file was opened and read.
    AudioOpened(Vec<u8>),
    /// The attempt to delete the sound file is over.
    AudioRemoved,
    /// The attempt to delete the video file is over.
    VideoRemoved,
    /// The attempt to tell the user is over.
    Reported,
}

/// What a [`DownloadEvent`] says.
pub enum Happening {
    FetcherPrepared(Result<(), Seq<char>>),
    VideoFetched(Result<(), Seq<char>>),
    DownloadStarted(Result<(), Seq<char>>),
    DownloadFinished,
    AudioExtracted(Result<bool, Seq<char>>),
    AudioRead(Result<Seq<u8>, Seq<char>>),
    TagRead(Result<Seq<u8>, Seq<char>>),
    AudioNotOpened,
    AudioNotReadable,
    AudioOpened(Seq<u8>),
    AudioRemoved,
    VideoRemoved,
    Reported,
}

impl View for DownloadEvent {
    type V = Happening;

    open spec fn view(&self) -> Happening {
        match self {
            DownloadEvent::FetcherPrepared(Ok(_)) => Happening::FetcherPrepared(Ok(())),
            DownloadEvent::FetcherPrepared(Err(message)) => Happening::FetcherPrepared(
                Err(message@),
            ),
            DownloadEvent::VideoFetched(Ok(_)) => Happening::VideoFetched(Ok(())),
            DownloadEvent::VideoFetched(Err(message)) => Happening::VideoFetched(Err(message@)),
            DownloadEvent::DownloadStarted(Ok(_)) => Happening::DownloadStarted(Ok(())),
            DownloadEvent::DownloadStarted(Err(message)) => Happening::DownloadStarted(
                Err(message@),
            ),
            DownloadEvent::DownloadFinished => Happening::DownloadFinished,
            DownloadEvent::AudioExtracted(Ok(success)) => Happening::AudioExtracted(Ok(*success)),
            DownloadEvent::AudioExtracted(Err(message)) => Happening::AudioExtracted(
                Err(message@),
            ),
            DownloadEvent::AudioRead(Ok(data)) => Happening::AudioRead(Ok(data@)),
            DownloadEvent::AudioRead(Err(message)) => Happening::AudioRead(Err(message@)),
            DownloadEvent::TagRead(Ok(data)) => Happening::TagRead(Ok(data@)),
            DownloadEvent::TagRead(Err(message)) => Happening::TagRead(Err(message@)),
            DownloadEvent::AudioNotOpened => Happening::AudioNotOpened,
            DownloadEvent::AudioNotReadable => Happening::AudioNotReadable,
            DownloadEvent::AudioOpened(data) => Happening::AudioOpened(data@),
            DownloadEvent::AudioRemoved => Happening::AudioRemoved,
            DownloadEvent::VideoRemoved => Happening::VideoRemoved,
            DownloadEvent::Reported => Happening::Reported,
        }
    }
}

/// How far a download has come, and what it has brought so far.
pub enum Stage {
    Preparing,
    Fetching,
    Downloading,
    Waiting,
    Extracting,
    Reading,
    Titling { audio_data: Seq<u8> },
    Opening { audio_data: Seq<u8>, title: Seq<char> },
    RemovingAudio { download: Download },
    RemovingVideo { download: Download },
    Reporting { download: Download },
    Over,
}

/// A [`DownloadJob`] as its callers see it.
pub struct JobState {
    pub url: Seq<char>,
    pub stage: Stage,
}

/// The arguments that make `ffmpeg` write the sound of `video` to `audio`, in the best
/// quality it can do.
pub open spec fn extraction(video: Seq<char>, audio: Seq<char>) -> Seq<Seq<char>> {
    seq!["-i"@, video, "-q:a"@, "0"@, "-map"@, "a"@, audio]
}

/// What can be found out about the audio data that an event brings.
pub struct Findings {
    /// What looking for a title in its tag comes to.
    pub titling: Titling,
    /// What opening a decoder over it comes to.
    pub opening: Opening,
}

/// The title of a track: the one in its tag, or a stand-in where there is none.
pub open spec fn title_of(titling: Titling) -> Seq<char> {
    match titling {
        Ok(Some(title)) => title,
        _ => "Unknown Title"@,
    }
}

/// The end of a download that failed.
pub open spec fn failure(message: Seq<char>) -> (Stage, Directive) {
    (Stage::Over, Directive::Finish(Err(message)))
}

impl JobState {
    pub open spec fn video(self) -> Seq<char> {
        cache::video_file(cache::hash_name(self.url))
    }

    pub open spec fn audio(self) -> Seq<char> {
        cache::audio_file(cache::hash_name(self.url))
    }

    /// What is done first.
    pub open spec fn first(self) -> Directive {
        Directive::PrepareFetcher {
            executables_dir: "libs"@,
            output_dir: "/tmp/further-ng-cache"@,
            timeout_secs: 600,
        }
    }

    /// What follows once the audio file that gave `audio_data` has been read for its
    /// tag; `titling` is what looking for a title in it comes to.
    pub open spec fn titled(self, audio_data: Seq<u8>, titling: Titling) -> (Stage, Directive) {
        (
            Stage::Opening { audio_data, title: title_of(titling) },
            Directive::OpenAudio { path: self.audio() },
        )
    }

    /// What follows once the audio file that gave `audio_data` and `title` has been
    /// opened a second time; `opening` is what opening a decoder over it comes to.
    pub open spec fn measured(
        self,
        audio_data: Seq<u8>,
        title: Seq<char>,
        opening: Opening,
    ) -> (Stage, Directive) {
        match opening {
            Ok(pair) => (
                Stage::RemovingAudio {
                    download: Download { audio_data, title, duration: decoder::pair_span(pair) },
                },
                Directive::RemoveAudio { path: self.audio() },
            ),
            Err(_) => failure("Failed to decode audio"@),
        }
    }

    /// What an event leads to: the next stage and the next thing to do. It is `None`
    /// for an event that this stage does not wait for. `found` is what can be found
    /// out about the audio data that the event brings.
    pub open spec fn next(self, event: Happening, found: Findings) -> Option<(Stage, Directive)> {
        match (self.stage, event) {
            (Stage::Preparing, Happening::FetcherPrepared(prepared)) => Some(
                match prepared {
                    Ok(_) => (Stage::Fetching, Directive::FetchVideo { url: self.url }),
                    Err(message) => failure(message),
                },
            ),
            (Stage::Fetching, Happening::VideoFetched(fetched)) => Some(
                match fetched {
                    Ok(_) => (Stage::Downloading, Directive::DownloadVideo { path: self.video() }),
                    Err(message) => failure(message),
                },
            ),
            (Stage::Downloading, Happening::DownloadStarted(started)) => Some(
                match started {
                    Ok(_) => (Stage::Waiting, Directive::WaitForDownload),
                    Err(message) => failure(message),
                },
            ),
            (Stage::Waiting, Happening::DownloadFinished) => Some(
                (
                    Stage::Extracting,
                    Directive::ExtractAudio {
                        program: "ffmpeg"@,
                        arguments: extraction(self.video(), self.audio()),
                    },
                ),
            ),
            (Stage::Extracting, Happening::AudioExtracted(extracted)) => Some(
                match extracted {
                    Ok(true) => (Stage::Reading, Directive::ReadAudio { path: self.audio() }),
                    Ok(false) => failure("Failed to extract audio from video"@),
                    Err(message) => failure(message),
                },
            ),
            (Stage::Reading, Happening::AudioRead(read)) => Some(
                match read {
                    Ok(audio_data) => (
                        Stage::Titling { audio_data },
                        Directive::ReadTitle { path: self.audio() },
                    ),
                    Err(message) => failure(message),
                },
            ),
            (Stage::Titling { audio_data }, Happening::TagRead(read)) => Some(
                self.titled(
                    audio_data,
                    if read is Ok {
                        found.titling
                    } else {
                        Err(())
                    },
                ),
            ),
            (Stage::Opening { .. }, Happening::AudioNotOpened) => Some(
                failure("Failed to open audio file"@),
            ),
            (Stage::Opening { .. }, Happening::AudioNotReadable) => Some(
                failure("Failed to decode audio"@),
            ),
            (Stage::Opening { audio_data, title }, Happening::AudioOpened(_)) => Some(
                self.measured(audio_data, title, found.opening),
            ),
            (Stage::RemovingAudio { download }, Happening::AudioRemoved) => Some(
                (
                    Stage::RemovingVideo { download },
                    Directive::RemoveVideo { path: self.video() },
                ),
            ),
            (Stage::RemovingVideo { download }, Happening::VideoRemoved) => Some(
                (
                    Stage::Reporting { download },
                    Directive::Report { text: "Download complete! Added to queue."@ },
                ),
            ),
            (Stage::Reporting { download }, Happening::Reported) => Some(
                (Stage::Over, Directive::Finish(Ok(download))),
            ),
            _ => None,
        }
    }
}

/// What can be found out about the audio data that an event brings. Of an event that
/// brings none, nothing is asked.
pub open spec fn findings(event: Happening) -> Findings {
    match event {
        Happening::TagRead(Ok(data)) => Findings {
            titling: tag::titling(data),
            opening: Ok(None),
        },
        Happening::AudioOpened(data) => Findings {
            titling: Ok(None),
            opening: decoder::opened(data),
        },
        _ => Findings { titling: Ok(None), opening: Ok(None) },
    }
}

#[derive(Debug)]
enum JobStage {
    Preparing,
    Fetching,
    Downloading,
    Waiting,
    Extracting,
    Reading,
    Titling { audio_data: Vec<u8> },
    Opening { audio_data: Vec<u8>, title: String },
    RemovingAudio { track: DownloadedTrack },
    RemovingVideo { track: DownloadedTrack },
    Reporting { track: DownloadedTrack },
    Over,
}

impl JobStage {
    spec fn stage(self) -> Stage {
        match self {
            JobStage::Preparing => Stage::Preparing,
            JobStage::Fetching => Stage::Fetching,
            JobStage::Downloading => Stage::Downloading,
            JobStage::Waiting => Stage::Waiting,
            JobStage::Extracting => Stage::Extracting,
            JobStage::Reading => Stage::Reading,
            JobStage::Titling { audio_data } => Stage::Titling { audio_data: audio_data@ },
            JobStage::Opening { audio_data, title } => Stage::Opening {
                audio_data: audio_data@,
                title: title@,
            },
            JobStage::RemovingAudio { track } => Stage::RemovingAudio { download: track@ },
            JobStage::RemovingVideo { track } => Stage::RemovingVideo { download: track@ },
            JobStage::Reporting { track } => Stage::Reporting { download: track@ },
            JobStage::Over => Stage::Over,
        }
    }
}

/// The download of one track, as a sequence of steps. Each event tells how the last
/// step ended and is answered with the next step.
#[derive(Debug)]
pub struct DownloadJob {
    url: String,
    video_path: String,
    audio_path: String,
    stage: JobStage,
}

impl View for DownloadJob {
    type V = JobState;

    closed spec fn view(&self) -> JobState {
        JobState { url: self.url@, stage: self.stage.stage() }
    }
}

impl DownloadJob {
    /// The paths are those of the address.
    #[verifier::type_invariant]
    spec fn paths_belong_to_url(self) -> bool {
        &&& self.video_path@ == self@.video()
        &&& self.audio_path@ == self@.audio()
    }

    /// A download that is about to begin, and its first step.
    pub fn new(url: &str) -> (begun: (Self, DownloadAction))
        ensures
            begun.0@ == (JobState { url: url@, stage: Stage::Preparing }),
            begun.1@ == begun.0@.first(),
    {
        let name = cache::url_hash(url);
        let job = DownloadJob {
            url: String::from_str(url),
            video_path: cache::video_path(name.as_str()),
            audio_path: cache::audio_path(name.as_str()),
            stage: JobStage::Preparing,
        };
        let action = DownloadAction::PrepareFetcher {
            executables_dir: String::from_str("libs"),
            output_dir: String::from_str("/tmp/further-ng-cache"),
            timeout_secs: 600,
        };
        (job, action)
    }

    fn fail(&mut self, message: String) -> (action: Option<DownloadAction>)
        ensures
            final(self)@ == (JobState { stage: Stage::Over, ..old(self)@ }),
            action matches Some(last) && last@ == Directive::Finish(Err(message@)),
    {
        proof {
            use_type_invariant(&*self);
        }
        self.stage = JobStage::Over;
        Some(DownloadAction::Finish(Err(message)))
    }

    fn extraction_action(&self) -> (action: DownloadAction)
        ensures
            action@ == (Directive::ExtractAudio {
                program: "ffmpeg"@,
                arguments: extraction(self@.video(), self@.audio()),
            }),
    {
        proof {
            use_type_invariant(self);
        }
        let mut arguments: Vec<String> = Vec::new();
        arguments.push(String::from_str("-i"));
        arguments.push(self.video_path.clone());
        arguments.push(String::from_str("-q:a"));
        arguments.push(String::from_str("0"));
        arguments.push(String::from_str("-map"));
        arguments.push(String::from_str("a"));
        arguments.push(self.audio_path.clone());
        assert(texts(arguments@) =~= extraction(self@.video(), self@.audio()));
        DownloadAction::ExtractAudio { program: String::from_str("ffmpeg"), arguments }
    }

    fn take_stage(&mut self) -> (stage: JobStage)
        ensures
            stage.stage() == old(self)@.stage,
            final(self)@ == (JobState { stage: Stage::Over, ..old(self)@ }),
    {
        proof {
            use_type_invariant(&*self);
        }
        let mut stage = JobStage::Over;
        std::mem::swap(&mut stage, &mut self.stage);
        stage
    }

    /// Answers the reading of the tag, where that is what the job waits for. `titling`
    /// is how looking for a title in it ended.
    pub fn titled(&mut self, titling: Result<Option<String>, ()>) -> (action: Option<
        DownloadAction,
    >)
        ensures
            match old(self)@.stage {
                Stage::Titling { audio_data } => {
                    let (stage, directive) = old(self)@.titled(audio_data, tag::outcome(titling));
                    &&& action matches Some(next) && next@ == directive
                    &&& final(self)@ == (JobState { stage, ..old(self)@ })
                },
                _ => action is None && final(self)@ == old(self)@,
            },
    {
        let reached = self.take_stage();
        proof {
            use_type_invariant(&*self);
        }
        match reached {
            JobStage::Titling { audio_data } => {
                self.stage = JobStage::Opening { audio_data, title: track_title(titling) };
                Some(DownloadAction::OpenAudio { path: self.audio_path.clone() })
            },
            stage => {
                self.stage = stage;
                None
            },
        }
    }

    /// Answers the opening of the audio file, where that is what the job waits for.
    /// `opening` is how opening a decoder over what was read ended.
    pub fn measured(&mut self, opening: Result<Option<Span>, String>) -> (action: Option<
        DownloadAction,
    >)
        ensures
            match old(self)@.stage {
                Stage::Opening { audio_data, title } => {
                    let (stage, directive) = old(self)@.measured(
                        audio_data,
                        title,
                        decoder::outcome(opening),
                    );
                    &&& action matches Some(next) && next@ == directive
                    &&& final(self)@ == (JobState { stage, ..old(self)@ })
                },
                _ => action is None && final(self)@ == old(self)@,
            },
    {
        let reached = self.take_stage();
        proof {
            use_type_invariant(&*self);
        }
        match reached {
            JobStage::Opening { audio_data, title } => {
                match opening {
                    Ok(duration) => {
                        self.stage = JobStage::RemovingAudio {
                            track: DownloadedTrack { audio_data, title, duration },
                        };
                        Some(DownloadAction::RemoveAudio { path: self.audio_path.clone() })
                    },
                    Err(_) => self.fail(String::from_str("Failed to decode audio")),
                }
            },
            stage => {
                self.stage = stage;
                None
            },
        }
    }

    /// Answers an event with the next step. An event that the job does not wait for
    /// changes nothing and is not answered.
    pub fn step(&mut self, event: DownloadEvent) -> (action: Option<DownloadAction>)
        ensures
            match old(self)@.next(event@, findings(event@)) {
                Some((stage, directive)) => {
                    &&& action matches Some(next) && next@ == directive
                    &&& final(self)@ == (JobState { stage, ..old(self)@ })
                },
                None => action is None && final(self)@ == old(self)@,
            },
    {
        let reached = self.take_stage();
        proof {
            use_type_invariant(&*self);
        }
        match (reached, event) {
            (JobStage::Preparing, DownloadEvent::FetcherPrepared(prepared)) => match prepared {
                Ok(_) => {
                    self.stage = JobStage::Fetching;
                    Some(DownloadAction::FetchVideo { url: self.url.clone() })
                },
                Err(message) => self.fail(message),
            },
            (JobStage::Fetching, DownloadEvent::VideoFetched(fetched)) => match fetched {
                Ok(_) => {
                    self.stage = JobStage::Downloading;
                    Some(DownloadAction::DownloadVideo { path: self.video_path.clone() })
                },
                Err(message) => self.fail(message),
            },
            (JobStage::Downloading, DownloadEvent::DownloadStarted(started)) => match started {
                Ok(_) => {
                    self.stage = JobStage::Waiting;
                    Some(DownloadAction::WaitForDownload)
                },
                Err(message) => self.fail(message),
            },
            (JobStage::Waiting, DownloadEvent::DownloadFinished) => {
                self.stage = JobStage::Extracting;
                Some(self.extraction_action())
            },
            (JobStage::Extracting, DownloadEvent::AudioExtracted(extracted)) => match extracted {
                Ok(success) => {
                    if success {
                        self.stage = JobStage::Reading;
                        Some(DownloadAction::ReadAudio { path: self.audio_path.clone() })
                    } else {
                        self.fail(String::from_str("Failed to extract audio from video"))
                    }
                },
                Err(message) => self.fail(message),
            },
            (JobStage::Reading, DownloadEvent::AudioRead(read)) => match read {
                Ok(audio_data) => {
                    self.stage = JobStage::Titling { audio_data };
                    Some(DownloadAction::ReadTitle { path: self.audio_path.clone() })
                },
                Err(message) => self.fail(message),
            },
            (JobStage::Titling { audio_data }, DownloadEvent::TagRead(read)) => {
                self.stage = JobStage::Titling { audio_data };
                let titling = match read {
                    Ok(data) => tag::title(data),
                    Err(_) => Err(()),
                };
                self.titled(titling)
            },
            (JobStage::Opening { .. }, DownloadEvent::AudioNotOpened) => {
                self.fail(String::from_str("Failed to open audio file"))
            },
            (JobStage::Opening { .. }, DownloadEvent::AudioNotReadable) => {
                self.fail(String::from_str("Failed to decode audio"))
            },
            (JobStage::Opening { audio_data, title }, DownloadEvent::AudioOpened(data)) => {
                self.stage = JobStage::Opening { audio_data, title };
                let opening = decoder::open(data);
                self.measured(opening)
            },
            (JobStage::RemovingAudio { track }, DownloadEvent::AudioRemoved) => {
                self.stage = JobStage::RemovingVideo { track };
                Some(DownloadAction::RemoveVideo { path: self.video_path.clone() })
            },
            (JobStage::RemovingVideo { track }, DownloadEvent::VideoRemoved) => {
                self.stage = JobStage::Reporting { track };
                Some(
                    DownloadAction::Report {
                        text: String::from_str("Download complete! Added to queue."),
                    },
                )
            },
            (JobStage::Reporting { track }, DownloadEvent::Reported) => {
                Some(DownloadAction::Finish(Ok(track)))
            },
            (stage, _) => {
                self.stage = stage;
                None
            },
        }
    }
}

/// The title of a track: the one in its tag, or a stand-in where there is none.
pub fn track_title(titling: Result<Option<String>, ()>) -> (title: String)
    ensures
        title@ == title_of(tag::outcome(titling)),
{
    match titling {
        Ok(Some(title)) => title,
        _ => String::from_str("Unknown Title"),
    }
}

/// What the user reads while a video arrives.
pub open spec fn progress(percent: u64) -> Seq<char> {
    "Downloading... "@ + text::decimal(percent as nat) + "% complete"@
}

/// What the user reads while a video of `total` bytes arrives. `percent` is the share
/// that has arrived; of a video whose size is not known, nothing counts as arrived.
pub fn progress_text(total: u64, percent: u64) -> (message: String)
    ensures
        message@ == progress(
            if total > 0 {
                percent
            } else {
                0
            },
        ),
{
    let mut message = String::from_str("Downloading... ");
    text::push_decimal(
        &mut message,
        if total > 0 {
            percent
        } else {
            0
        },
    );
    message.append("% complete");
    message
}

/// How many more events a stage can take.
pub open spec fn events_left(stage: Stage) -> nat {
    match stage {
        Stage::Preparing => 11,
        Stage::Fetching => 10,
        Stage::Downloading => 9,
        Stage::Waiting => 8,
        Stage::Extracting => 7,
        Stage::Reading => 6,
        Stage::Titling { .. } => 5,
        Stage::Opening { .. } => 4,
        Stage::RemovingAudio { .. } => 3,
        Stage::RemovingVideo { .. } => 2,
        Stage::Reporting { .. } => 1,
        Stage::Over => 0,
    }
}

/// Whether an event tells how carrying out a directive ended.
pub open spec fn answers(event: Happening, directive: Directive) -> bool {
    match directive {
        Directive::PrepareFetcher { .. } => event is FetcherPrepared,
        Directive::FetchVideo { .. } => event is VideoFetched,
        Directive::DownloadVideo { .. } => event is DownloadStarted,
        Directive::WaitForDownload => event is DownloadFinished,
        Directive::ExtractAudio { .. } => event is AudioExtracted,
        Directive::ReadAudio { .. } => event is AudioRead,
        Directive::ReadTitle { .. } => event is TagRead,
        Directive::OpenAudio { .. } => event is AudioNotOpened || event is AudioNotReadable
            || event is AudioOpened,
        Directive::RemoveAudio { .. } => event is AudioRemoved,
        Directive::RemoveVideo { .. } => event is VideoRemoved,
        Directive::Report { .. } => event is Reported,
        Directive::Finish(_) => false,
    }
}

/// A job that has just begun waits for exactly the events that answer its first step.
pub proof fn law_first_step_is_awaited(job: JobState, event: Happening, found: Findings)
    requires
        job.stage == Stage::Preparing,
    ensures
        job.next(event, found) is Some <==> answers(event, job.first()),
{
}

/// After each step a job waits for exactly the events that answer it, so whoever
/// carries out each step and tells how it ended is always answered, until the end.
pub proof fn law_each_step_is_awaited(
    job: JobState,
    event: Happening,
    found: Findings,
    later: Happening,
    later_found: Findings,
)
    requires
        job.next(event, found) is Some,
    ensures
        ({
            let (stage, directive) = job.next(event, found)->0;
            (JobState { stage, ..job }).next(later, later_found) is Some <==> answers(
                later,
                directive,
            )
        }),
{
}

/// Each event brings a job closer to its end, so it ends after eleven events at most; the
/// end is reached exactly when the job says so.
pub proof fn law_jobs_end(job: JobState, event: Happening, found: Findings)
    ensures
        events_left(job.stage) <= 11,
        job.next(event, found) matches Some((stage, directive)) ==> {
            &&& events_left(stage) < events_left(job.stage)
            &&& stage == Stage::Over <==> directive is Finish
        },
        job.stage == Stage::Over ==> job.next(event, found) is None,
{
}

/// How far a run has come: the job, and the last thing it said to do.
pub struct Progress {
    pub job: JobState,
    pub directive: Directive,
}

/// A run of a job over several events, each with what can be found out about the audio
/// data that it brings.
/// It is `None` once an event was not waited for.
pub open spec fn run(job: JobState, events: Seq<(Happening, Findings)>) -> Option<Progress>
    decreases events.len(),
{
    if events.len() == 0 {
        Some(Progress { job, directive: job.first() })
    } else {
        let (event, found) = events.last();
        match run(job, events.drop_last()) {
            Some(earlier) => match earlier.job.next(event, found) {
                Some((stage, directive)) => Some(
                    Progress { job: JobState { stage, ..earlier.job }, directive },
                ),
                None => None,
            },
            None => None,
        }
    }
}

/// Where a run stands: what it has brought so far is what the events brought.
spec fn holds(stage: Stage, events: Seq<(Happening, Findings)>) -> bool {
    match stage {
        Stage::Titling { audio_data } => events.len() == 6 && events[5].0
            == Happening::AudioRead(Ok(audio_data)),
        Stage::Opening { audio_data, title } => events.len() == 7 && events[5].0
            == Happening::AudioRead(Ok(audio_data)) && brought_title(events[6], title),
        Stage::RemovingAudio { download } => events.len() == 8 && brought(download, events),
        Stage::RemovingVideo { download } => events.len() == 9 && brought(download, events),
        Stage::Reporting { download } => events.len() == 10 && brought(download, events),
        Stage::Over => true,
        _ => events.len() == 11 - events_left(stage),
    }
}

/// Whether a title is the one that was found in the tag, or the stand-in where the
/// file could not be read for its tag.
pub open spec fn brought_title(event: (Happening, Findings), title: Seq<char>) -> bool {
    event.0 matches Happening::TagRead(read) && title == title_of(
        if read is Ok {
            event.1.titling
        } else {
            Err(())
        },
    )
}

/// Whether a download is what the events of a run brought: the audio data that was
/// read, the title in its tag, and the duration that the decoder reported.
pub open spec fn brought(download: Download, events: Seq<(Happening, Findings)>) -> bool {
    &&& events.len() >= 8
    &&& events[5].0 == Happening::AudioRead(Ok(download.audio_data))
    &&& brought_title(events[6], download.title)
    &&& events[7].0 is AudioOpened
    &&& events[7].1.opening matches Ok(pair) && download.duration == decoder::pair_span(pair)
}

proof fn lemma_run_holds(job: JobState, events: Seq<(Happening, Findings)>)
    requires
        job.stage == Stage::Preparing,
        run(job, events) is Some,
    ensures
        run(job, events) matches Some(progress) && {
            &&& holds(progress.job.stage, events)
            &&& progress.job.url == job.url
            &&& progress.directive matches Directive::Finish(Ok(download)) ==> brought(
                download,
                events,
            )
        },
    decreases events.len(),
{
    if events.len() > 0 {
        let earlier = events.drop_last();
        lemma_run_holds(job, earlier);
        assert(forall|i: int| 0 <= i < earlier.len() ==> earlier[i] == events[i]);
        assert(events[events.len() - 1] == events.last());
    }
}

/// A job that ends well hands over the audio data that was read from the file, the
/// title that its tag gave, and the duration that the decoder reported, whatever else
/// happened on the way; and it stays with the address it began with.
pub proof fn law_download_is_what_was_fetched(
    job: JobState,
    events: Seq<(Happening, Findings)>,
    progress: Progress,
    download: Download,
)
    requires
        job.stage == Stage::Preparing,
        run(job, events) == Some(progress),
        progress.directive == Directive::Finish(Ok(download)),
    ensures
        brought(download, events),
        progress.job.url == job.url,
{
    lemma_run_holds(job, events);
}

/// The events of a download in which every step succeeds.
pub open spec fn good_events(
    audio_data: Seq<u8>,
    tagged: Seq<u8>,
    titling: Titling,
    opened: Seq<u8>,
    duration: Option<(u64, u32)>,
) -> Seq<(Happening, Findings)> {
    let nothing = Findings { titling: Ok(None), opening: Ok(None) };
    seq![
        (Happening::FetcherPrepared(Ok(())), nothing),
        (Happening::VideoFetched(Ok(())), nothing),
        (Happening::DownloadStarted(Ok(())), nothing),
        (Happening::DownloadFinished, nothing),
        (Happening::AudioExtracted(Ok(true)), nothing),
        (Happening::AudioRead(Ok(audio_data)), nothing),
        (Happening::TagRead(Ok(tagged)), Findings { titling, opening: Ok(None) }),
        (Happening::AudioOpened(opened), Findings { titling: Ok(None), opening: Ok(duration) }),
        (Happening::AudioRemoved, nothing),
        (Happening::VideoRemoved, nothing),
        (Happening::Reported, nothing),
    ]
}

/// A job in which every step succeeds ends well, also where there is no tag in the file
/// or no title in the tag.
pub proof fn law_good_steps_end_well(
    job: JobState,
    audio_data: Seq<u8>,
    tagged: Seq<u8>,
    titling: Titling,
    opened: Seq<u8>,
    duration: Option<(u64, u32)>,
)
    requires
        job.stage == Stage::Preparing,
    ensures
        run(job, good_events(audio_data, tagged, titling, opened, duration)) == Some(
            Progress {
                job: JobState { stage: Stage::Over, ..job },
                directive: Directive::Finish(
                    Ok(
                        Download {
                            audio_data,
                            title: title_of(titling),
                            duration: decoder::pair_span(duration),
                        },
                    ),
                ),
            },
        ),
{
    reveal_with_fuel(run, 12);
}

/// Whether a run said at some point to carry out a directive.
pub open spec fn said(
    job: JobState,
    events: Seq<(Happening, Findings)>,
    directive: Directive,
) -> bool {
    exists|n: int|
        {
            &&& 0 <= n <= events.len()
            &&& #[trigger] run(job, events.take(n)) matches Some(progress)
            &&& progress.directive == directive
        }
}

/// A job that ends well has said to delete the sound file and the video file of its
/// address; whether deleting them worked makes no difference to it.
pub proof fn law_files_are_cleaned_up(
    job: JobState,
    events: Seq<(Happening, Findings)>,
    progress: Progress,
    download: Download,
)
    requires
        job.stage == Stage::Preparing,
        run(job, events) == Some(progress),
        progress.directive == Directive::Finish(Ok(download)),
    ensures
        said(job, events, Directive::RemoveAudio { path: job.audio() }),
        said(job, events, Directive::RemoveVideo { path: job.video() }),
{
    let reporting = events.drop_last();
    let removing_video = reporting.drop_last();
    let removing_audio = removing_video.drop_last();
    lemma_run_holds(job, reporting);
    lemma_run_holds(job, removing_video);
    lemma_run_holds(job, removing_audio);
    assert(removing_video =~= events.take(9));
    assert(removing_audio =~= events.take(8));
}

/// A job deletes no files but the sound file and the video file of its own address,
/// and these only once the sound has been read and found to be playable.
pub proof fn law_only_finished_files_are_deleted(job: JobState, event: Happening, found: Findings)
    ensures
        job.next(event, found) matches Some((_, Directive::RemoveAudio { path })) ==> {
            &&& path == job.audio()
            &&& job.stage is Opening
            &&& event is AudioOpened
            &&& found.opening is Ok
        },
        job.next(event, found) matches Some((_, Directive::RemoveVideo { path })) ==> {
            &&& path == job.video()
            &&& job.stage is RemovingAudio
        },
{
}

/// Whatever a job says to do concerns its own address. It fetches from exactly that
/// address, and every file that it downloads, extracts from, reads, opens or deletes is
/// the video or the sound in `/tmp/` that is named after the digest of the address.
pub proof fn law_steps_concern_the_own_address(job: JobState, event: Happening, found: Findings)
    ensures
        ({
            let name = cache::hex_string(
                cache::sha3_256_digest(vstd::utf8::encode_utf8(job.url)),
            );
            let video = "/tmp/"@ + name + ".mp4"@;
            let audio = "/tmp/"@ + name + ".mp3"@;
            job.next(event, found) matches Some((_, directive)) ==> match directive {
                Directive::PrepareFetcher { .. } => false,
                Directive::FetchVideo { url } => url == job.url,
                Directive::DownloadVideo { path } => path == video,
                Directive::ExtractAudio { program, arguments } => {
                    &&& program == "ffmpeg"@
                    &&& arguments == seq!["-i"@, video, "-q:a"@, "0"@, "-map"@, "a"@, audio]
                },
                Directive::ReadAudio { path } => path == audio,
                Directive::ReadTitle { path } => path == audio,
                Directive::OpenAudio { path } => path == audio,
                Directive::RemoveAudio { path } => path == audio,
                Directive::RemoveVideo { path } => path == video,
                Directive::Report { text } => text == "Download complete! Added to queue."@,
                Directive::WaitForDownload => true,
                Directive::Finish(_) => true,
            }
        }),
{
}

/// Over all its steps a job stays with the address that it began with: in whichever order
/// events come, the last thing it said to do concerns that address and its files.
pub proof fn law_runs_concern_one_address(job: JobState, events: Seq<(Happening, Findings)>)
    requires
        job.stage == Stage::Preparing,
        run(job, events) is Some,
    ensures
        ({
            let name = cache::hex_string(
                cache::sha3_256_digest(vstd::utf8::encode_utf8(job.url)),
            );
            let video = "/tmp/"@ + name + ".mp4"@;
            let audio = "/tmp/"@ + name + ".mp3"@;
            let progress = run(job, events)->0;
            &&& progress.job.url == job.url
            &&& match progress.directive {
                Directive::PrepareFetcher { executables_dir, output_dir, timeout_secs } => {
                    &&& events.len() == 0
                    &&& executables_dir == "libs"@
                    &&& output_dir == "/tmp/further-ng-cache"@
                    &&& timeout_secs == 600
                },
                Directive::FetchVideo { url } => url == job.url,
                Directive::DownloadVideo { path } => path == video,
                Directive::ExtractAudio { program, arguments } => {
                    &&& program == "ffmpeg"@
                    &&& arguments == seq!["-i"@, video, "-q:a"@, "0"@, "-map"@, "a"@, audio]
                },
                Directive::ReadAudio { path } => path == audio,
                Directive::ReadTitle { path } => path == audio,
                Directive::OpenAudio { path } => path == audio,
                Directive::RemoveAudio { path } => path == audio,
                Directive::RemoveVideo { path } => path == video,
                Directive::Report { text } => text == "Download complete! Added to queue."@,
                Directive::WaitForDownload => true,
                Directive::Finish(_) => true,
            }
        }),
{
    lemma_run_holds(job, events);
    if events.len() > 0 {
        let earlier = events.drop_last();
        lemma_run_holds(job, earlier);
        law_steps_concern_the_own_address(
            run(job, earlier)->0.job,
            events.last().0,
            events.last().1,
        );
    }
}

/// Each step that succeeds leads to the one behind it: the fetcher is set up, the video is
/// looked up and downloaded, its sound is extracted and read, then read again for its
/// title and opened for its duration; both files are deleted, the sound file first, the
/// user is told, and the job is over. What has been gathered on the way is kept.
pub proof fn law_good_steps_lead_on(
    job: JobState,
    found: Findings,
    data: Seq<u8>,
    read: Seq<u8>,
    title: Seq<char>,
    download: Download,
)
    ensures
        job.stage == Stage::Preparing ==> {
            &&& job.next(Happening::FetcherPrepared(Ok(())), found) matches Some((stage, directive))
            &&& stage == Stage::Fetching
            &&& directive is FetchVideo
        },
        job.stage == Stage::Fetching ==> {
            &&& job.next(Happening::VideoFetched(Ok(())), found) matches Some((stage, directive))
            &&& stage == Stage::Downloading
            &&& directive is DownloadVideo
        },
        job.stage == Stage::Downloading ==> {
            &&& job.next(Happening::DownloadStarted(Ok(())), found) matches Some((stage, directive))
            &&& stage == Stage::Waiting
            &&& directive is WaitForDownload
        },
        job.stage == Stage::Waiting ==> {
            &&& job.next(Happening::DownloadFinished, found) matches Some((stage, directive))
            &&& stage == Stage::Extracting
            &&& directive is ExtractAudio
        },
        job.stage == Stage::Extracting ==> {
            &&& job.next(Happening::AudioExtracted(Ok(true)), found) matches Some(
                (stage, directive),
            )
            &&& stage == Stage::Reading
            &&& directive is ReadAudio
        },
        job.stage == Stage::Reading ==> {
            &&& job.next(Happening::AudioRead(Ok(data)), found) matches Some((stage, directive))
            &&& stage == (Stage::Titling { audio_data: data })
            &&& directive is ReadTitle
        },
        job.stage == (Stage::Titling { audio_data: data }) ==> {
            &&& job.next(Happening::TagRead(Ok(read)), found) matches Some((stage, directive))
            &&& stage is Opening
            &&& stage->Opening_audio_data == data
            &&& found.titling matches Ok(Some(inside)) ==> stage->Opening_title == inside
            &&& !(found.titling matches Ok(Some(_))) ==> stage->Opening_title == "Unknown Title"@
            &&& directive is OpenAudio
        },
        job.stage == (Stage::Opening { audio_data: data, title }) && found.opening is Ok ==> {
            &&& job.next(Happening::AudioOpened(read), found) matches Some((stage, directive))
            &&& stage is RemovingAudio
            &&& stage->RemovingAudio_download.audio_data == data
            &&& stage->RemovingAudio_download.title == title
            &&& found.opening->Ok_0 matches Some((secs, nanos))
                ==> stage->RemovingAudio_download.duration == Some(Span { secs, nanos })
            &&& found.opening->Ok_0 is None ==> stage->RemovingAudio_download.duration is None
            &&& directive is RemoveAudio
        },
        job.stage == (Stage::RemovingAudio { download }) ==> {
            &&& job.next(Happening::AudioRemoved, found) matches Some((stage, directive))
            &&& stage == (Stage::RemovingVideo { download })
            &&& directive is RemoveVideo
        },
        job.stage == (Stage::RemovingVideo { download }) ==> {
            &&& job.next(Happening::VideoRemoved, found) matches Some((stage, directive))
            &&& stage == (Stage::Reporting { download })
            &&& directive is Report
        },
        job.stage == (Stage::Reporting { download }) ==> {
            &&& job.next(Happening::Reported, found) matches Some((stage, directive))
            &&& stage == Stage::Over
            &&& directive == Directive::Finish(Ok(download))
        },
{
}

/// Each step that fails ends the job with its own reason: the text that came with it, or
/// where none did, what could not be done. The one exception is a file that cannot be read
/// for its tag: the job goes on with the stand-in for the title.
pub proof fn law_failures_end_the_job(
    job: JobState,
    found: Findings,
    message: Seq<char>,
    data: Seq<u8>,
    title: Seq<char>,
)
    ensures
        job.stage == Stage::Preparing ==> job.next(
            Happening::FetcherPrepared(Err(message)),
            found,
        ) == Some((Stage::Over, Directive::Finish(Err(message)))),
        job.stage == Stage::Fetching ==> job.next(Happening::VideoFetched(Err(message)), found)
            == Some((Stage::Over, Directive::Finish(Err(message)))),
        job.stage == Stage::Downloading ==> job.next(
            Happening::DownloadStarted(Err(message)),
            found,
        ) == Some((Stage::Over, Directive::Finish(Err(message)))),
        job.stage == Stage::Extracting ==> job.next(Happening::AudioExtracted(Err(message)), found)
            == Some((Stage::Over, Directive::Finish(Err(message)))),
        job.stage == Stage::Extracting ==> job.next(Happening::AudioExtracted(Ok(false)), found)
            == Some(
            (Stage::Over, Directive::Finish(Err("Failed to extract audio from video"@))),
        ),
        job.stage == Stage::Reading ==> job.next(Happening::AudioRead(Err(message)), found) == Some(
            (Stage::Over, Directive::Finish(Err(message))),
        ),
        job.stage == (Stage::Titling { audio_data: data }) ==> {
            &&& job.next(Happening::TagRead(Err(message)), found) matches Some((stage, directive))
            &&& stage == (Stage::Opening { audio_data: data, title: "Unknown Title"@ })
            &&& directive is OpenAudio
        },
        job.stage is Opening ==> {
            &&& job.next(Happening::AudioNotOpened, found) == Some(
                (Stage::Over, Directive::Finish(Err("Failed to open audio file"@))),
            )
            &&& job.next(Happening::AudioNotReadable, found) == Some(
                (Stage::Over, Directive::Finish(Err("Failed to decode audio"@))),
            )
            &&& found.opening is Err ==> job.next(Happening::AudioOpened(data), found) == Some(
                (Stage::Over, Directive::Finish(Err("Failed to decode audio"@))),
            )
        },
{
}

/// A job waits at each stage for the end of the one step that belongs to it, and for
/// nothing else.
pub proof fn law_stages_wait_for_their_step(job: JobState, event: Happening, found: Findings)
    ensures
        job.next(event, found) is Some <==> match job.stage {
            Stage::Preparing => event is FetcherPrepared,
            Stage::Fetching => event is VideoFetched,
            Stage::Downloading => event is DownloadStarted,
            Stage::Waiting => event is DownloadFinished,
            Stage::Extracting => event is AudioExtracted,
            Stage::Reading => event is AudioRead,
            Stage::Titling { .. } => event is TagRead,
            Stage::Opening { .. } => event is AudioNotOpened || event is AudioNotReadable
                || event is AudioOpened,
            Stage::RemovingAudio { .. } => event is AudioRemoved,
            Stage::RemovingVideo { .. } => event is VideoRemoved,
            Stage::Reporting { .. } => event is Reported,
            Stage::Over => false,
        },
{
}

/// What is found out about audio data is found out about the data that the event brought.
pub proof fn law_findings_are_about_the_data(data: Seq<u8>)
    ensures
        findings(Happening::TagRead(Ok(data))).titling == tag::titling(data),
        findings(Happening::AudioOpened(data)).opening == decoder::opened(data),
{
}

/// A title that was found is the title of the track, and in any other case the stand-in
/// is. An opened decoder's duration is that of the track, and its error is not quoted.
pub proof fn law_findings_make_the_track(
    job: JobState,
    data: Seq<u8>,
    title: Seq<char>,
    message: Seq<char>,
    secs: u64,
    nanos: u32,
)
    ensures
        title_of(Ok(Some(title))) == title,
        title_of(Ok(None)) == "Unknown Title"@,
        title_of(Err(())) == "Unknown Title"@,
        job.titled(data, Ok(Some(title))).0 == (Stage::Opening { audio_data: data, title }),
        job.titled(data, Ok(None)).0 == (Stage::Opening {
            audio_data: data,
            title: "Unknown Title"@,
        }),
        job.titled(data, Err(())).0 == (Stage::Opening {
            audio_data: data,
            title: "Unknown Title"@,
        }),
        job.measured(data, title, Ok(Some((secs, nanos)))).0 == (Stage::RemovingAudio {
            download: Download { audio_data: data, title, duration: Some(Span { secs, nanos }) },
        }),
        job.measured(data, title, Ok(None)).0 == (Stage::RemovingAudio {
            download: Download { audio_data: data, title, duration: None },
        }),
        job.measured(data, title, Err(message)) == (
            Stage::Over,
            Directive::Finish(Err("Failed to decode audio"@)),
        ),
{
}

/// The sound file of the own address is what is opened once the title is settled, and
/// what is deleted once the duration is.
pub proof fn law_findings_lead_to_the_sound_file(
    job: JobState,
    data: Seq<u8>,
    title: Seq<char>,
    titling: Titling,
    duration: Option<(u64, u32)>,
)
    ensures
        ({
            let name = cache::hex_string(
                cache::sha3_256_digest(vstd::utf8::encode_utf8(job.url)),
            );
            let audio = "/tmp/"@ + name + ".mp3"@;
            &&& job.titled(data, titling).1 == (Directive::OpenAudio { path: audio })
            &&& job.measured(data, title, Ok(duration)).1 == (Directive::RemoveAudio {
                path: audio,
            })
        }),
{
}

/// While a video arrives, the user reads how much of it there is, and zero as long as its
/// size is not known.
pub proof fn law_progress_is_the_share(total: u64, percent: u64, message: String)
    requires
        call_ensures(progress_text, (total, percent), message),
    ensures
        total > 0 ==> message@ == "Downloading... "@ + text::decimal(percent as nat)
            + "% complete"@,
        total == 0 ==> message@ == "Downloading... "@ + "0"@ + "% complete"@,
{
    reveal_strlit("0");
    text::law_decimal_ends_in_the_ones(0, 0);
    reveal_strlit("0123456789");
    assert(text::decimal(0) =~= "0"@);
}

/// What is said of a fetched track or of a step is what it holds.
pub proof fn law_steps_say_what_they_hold(
    track: DownloadedTrack,
    text: String,
    other: String,
    number: u64,
    list: Vec<String>,
)
    ensures
        track@.audio_data == track.audio_data@,
        track@.title == track.title@,
        track@.duration == track.duration,
        (DownloadAction::PrepareFetcher {
            executables_dir: text,
            output_dir: other,
            timeout_secs: number,
        })@ == (Directive::PrepareFetcher {
            executables_dir: text@,
            output_dir: other@,
            timeout_secs: number,
        }),
        (DownloadAction::FetchVideo { url: text })@ == (Directive::FetchVideo { url: text@ }),
        (DownloadAction::DownloadVideo { path: text })@ == (Directive::DownloadVideo {
            path: text@,
        }),
        DownloadAction::WaitForDownload@ == Directive::WaitForDownload,
        (DownloadAction::ExtractAudio { program: text, arguments: list })@ is ExtractAudio,
        (DownloadAction::ExtractAudio { program: text, arguments: list })@->program == text@,
        (DownloadAction::ExtractAudio { program: text, arguments: list })@->arguments.len()
            == list@.len(),
        forall|i: int|
            0 <= i < list@.len() ==> #[trigger] (DownloadAction::ExtractAudio {
                program: text,
                arguments: list,
            })@->arguments[i] == list@[i]@,
        (DownloadAction::ReadAudio { path: text })@ == (Directive::ReadAudio { path: text@ }),
        (DownloadAction::ReadTitle { path: text })@ == (Directive::ReadTitle { path: text@ }),
        (DownloadAction::OpenAudio { path: text })@ == (Directive::OpenAudio { path: text@ }),
        (DownloadAction::RemoveAudio { path: text })@ == (Directive::RemoveAudio { path: text@ }),
        (DownloadAction::RemoveVideo { path: text })@ == (Directive::RemoveVideo { path: text@ }),
        (DownloadAction::Report { text })@ == (Directive::Report { text: text@ }),
        DownloadAction::Finish(Ok(track))@ == Directive::Finish(Ok(track@)),
        DownloadAction::Finish(Err(text))@ == Directive::Finish(Err(text@)),
{
}

/// What is said of an event is what it holds.
pub proof fn law_events_say_what_they_hold(message: String, data: Vec<u8>, success: bool)
    ensures
        DownloadEvent::FetcherPrepared(Ok(()))@ == Happening::FetcherPrepared(Ok(())),
        DownloadEvent::FetcherPrepared(Err(message))@ == Happening::FetcherPrepared(Err(message@)),
        DownloadEvent::VideoFetched(Ok(()))@ == Happening::VideoFetched(Ok(())),
        DownloadEvent::VideoFetched(Err(message))@ == Happening::VideoFetched(Err(message@)),
        DownloadEvent::DownloadStarted(Ok(()))@ == Happening::DownloadStarted(Ok(())),
        DownloadEvent::DownloadStarted(Err(message))@ == Happening::DownloadStarted(Err(message@)),
        DownloadEvent::DownloadFinished@ == Happening::DownloadFinished,
        DownloadEvent::AudioExtracted(Ok(success))@ == Happening::AudioExtracted(Ok(success)),
        DownloadEvent::AudioExtracted(Err(message))@ == Happening::AudioExtracted(Err(message@)),
        DownloadEvent::AudioRead(Ok(data))@ == Happening::AudioRead(Ok(data@)),
        DownloadEvent::AudioRead(Err(message))@ == Happening::AudioRead(Err(message@)),
        DownloadEvent::TagRead(Ok(data))@ == Happening::TagRead(Ok(data@)),
        DownloadEvent::TagRead(Err(message))@ == Happening::TagRead(Err(message@)),
        DownloadEvent::AudioNotOpened@ == Happening::AudioNotOpened,
        DownloadEvent::AudioNotReadable@ == Happening::AudioNotReadable,
        DownloadEvent::AudioOpened(data)@ == Happening::AudioOpened(data@),
        DownloadEvent::AudioRemoved@ == Happening::AudioRemoved,
        DownloadEvent::VideoRemoved@ == Happening::VideoRemoved,
        DownloadEvent::Reported@ == Happening::Reported,
{
}

/// A new job is about the address that it was given, and sets up the fetcher first.
pub proof fn law_new_job_is_about_its_address(url: &str, begun: (DownloadJob, DownloadAction))
    requires
        call_ensures(DownloadJob::new, (url,), begun),
    ensures
        begun.0@.url == url@,
        begun.0@.stage == Stage::Preparing,
        begun.1@ == (Directive::PrepareFetcher {
            executables_dir: "libs"@,
            output_dir: "/tmp/further-ng-cache"@,
            timeout_secs: 600,
        }),
{
}

/// A step of a job keeps its address, and what it says to do concerns that address: the
/// video is fetched from exactly there, and every file is named after its digest.
pub proof fn law_step_keeps_to_its_address(
    job: &mut DownloadJob,
    event: DownloadEvent,
    action: Option<DownloadAction>,
)
    requires
        call_ensures(DownloadJob::step, (job, event), action),
    ensures
        final(job)@.url == old(job)@.url,
        action is None ==> final(job)@ == old(job)@,
        ({
            let name = cache::hex_string(
                cache::sha3_256_digest(vstd::utf8::encode_utf8(old(job)@.url)),
            );
            let video = "/tmp/"@ + name + ".mp4"@;
            let audio = "/tmp/"@ + name + ".mp3"@;
            action matches Some(next) ==> match next {
                DownloadAction::PrepareFetcher { .. } => false,
                DownloadAction::FetchVideo { url } => url@ == old(job)@.url,
                DownloadAction::DownloadVideo { path } => path@ == video,
                DownloadAction::ExtractAudio { program, arguments } => {
                    &&& program@ == "ffmpeg"@
                    &&& arguments@.len() == 7
                    &&& arguments@[0]@ == "-i"@
                    &&& arguments@[1]@ == video
                    &&& arguments@[2]@ == "-q:a"@
                    &&& arguments@[3]@ == "0"@
                    &&& arguments@[4]@ == "-map"@
                    &&& arguments@[5]@ == "a"@
                    &&& arguments@[6]@ == audio
                },
                DownloadAction::ReadAudio { path } => path@ == audio,
                DownloadAction::ReadTitle { path } => path@ == audio,
                DownloadAction::OpenAudio { path } => path@ == audio,
                DownloadAction::RemoveAudio { path } => path@ == audio,
                DownloadAction::RemoveVideo { path } => path@ == video,
                DownloadAction::Report { text } => text@ == "Download complete! Added to queue."@,
                DownloadAction::WaitForDownload => true,
                DownloadAction::Finish(_) => true,
            }
        }),
{
    law_steps_concern_the_own_address(old(job)@, event@, findings(event@));
    if let Some(DownloadAction::ExtractAudio { program, arguments }) = action {
        let said = texts(arguments@);
        assert(said.len() == 7);
        assert forall|i: int| 0 <= i < 7 implies said[i] == #[trigger] arguments@[i]@ by {}
    }
}

} // verus!
