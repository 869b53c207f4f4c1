# mimic-shrimp

An assistant for chat and English learning, as a verified library with a thin program around it.

- `src/engine*` - one turn of a conversation as steps: the model is asked, at most one tool is run,
  the outcome goes back into the transcript, until there is an answer.
- `src/tools.rs` - the tools on offer and the rules of the shell tool.
- `src/session_store.rs` - sessions held in memory.
- `src/channel*` - how messages from Feishu and Weixin are handled, which answers are spoken, how a
  Weixin account logs in, is watched and restarted, and how files are encrypted and uploaded.
- `src/capability*` - what the assistant offers, and the rules of speech synthesis.
- `src/config*` - all settings, read from environment variables.
- `src/http_api.rs`, `src/web*` - what the HTTP interface answers, and two small pages.
- `src/backtracking.rs` - a search that commits only what hits its target.
- `src/text.rs`, `src/words.rs`, `src/number.rs`, `src/encoding.rs` - texts, words, numerals and
  encodings, with their laws.
- `src/outside.rs` - every call into another crate, each behind a stated contract.
- `app/` - the program: process environment, network, files and timers.
- `tests/` - the library from outside.

Functions named `law_...` state what holds of several functions together.

The program is not connected to Feishu, and no lesson is behind it: `app/feishu.rs` and
`app/lesson.rs` say what each has to offer, and what `app/main.rs` wires in refuses every Feishu
callback, finds no lesson under way and lets the four lesson tools fail. Put an implementation of
`FeishuClient` or `Lesson` there to change that.
