# oneword

A Discord bot for one-word stories: members write a story one word per message, and a
message that ends with `.`, `!`, `?` or `…` closes it. The bot then posts a summary of
the story, and can publish summaries to Mastodon through an OAuth flow.

- `src/` is the library, verified with Verus: the story rules (`story`, `patterns`),
  the texts and buttons of the commands (`commands`, `ui`), the stored records and
  queries (`entity`), the environment lookups (`env`), decimal ids (`text`), and the
  OAuth provider, its authorization url (built with oauth2) and the decisions of its
  web routes (`oauth`).
- `app/` is the program around it: Discord (poise), the database (sea-orm), the web
  server (axum), the JSON of the OAuth state (serde) and the HTTP calls to Mastodon
  (reqwest).
- `tests/` exercises the library on concrete values.
