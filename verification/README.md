# further-ng

A music bot for Telegram. Users send the address of a video; the bot fetches it, keeps
its sound in a queue and plays the queue on the sound device of the machine it runs on.

The library under `src/` decides everything that can be decided without the outside
world, and Verus proves that it decides as its contracts say:

- `audio_queue`: the queue of tracks and the commands for the sound output,
- `bot`: what each chat command does and how it is answered,
- `download`: the steps by which a track is fetched,
- `cache`: the names of the files that a download uses,
- `decoder`, `tag`: what `rodio` and `id3` find out about MP3 data,
- `systemd_utils`: what the service manager is told,
- `span`, `text`: lengths of time and numbers as text.

The program under `app/` talks to Telegram, to the sound device, to the disk and to the
service manager. It carries out what the library says and tells it how that went. To
build it, `rodio` needs its `playback` feature and the ALSA headers.
