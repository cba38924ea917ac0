# fansly_recorder

Records Fansly livestreams: it looks an account up, polls its stream status,
records the stream with ffmpeg when it goes live, remuxes it to MP4, draws a
contact sheet with `mt` and can announce the stream on a Discord webhook.

- `src/` is the verified library (Verus): the JSON model of the API replies
  (`json`), reading the account and stream replies and the API addresses
  (`api`), the request-header check (`headers`), the settings and their
  defaults (`config`), recording names and external commands (`recorder`), where a recording's
  files go (`paths`), the
  recording session state machine (`session`), the online-check decision
  (`monitor`) and the Discord notices (`webhooks`).
- `app/` is the program around it: command line, configuration file, HTTP
  requests, running ffmpeg and `mt`, file system work, sleeping and sending
  the Discord messages.
- `tests/` runs the library on concrete values.
