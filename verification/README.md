# omnibus_pages

The page logic of the Omnibus library frontend, written in Verus: every
formatter, parser, classifier, view plan and small state machine behind the
account, authors, admin and book-detail screens, each with a contract that
Verus proves.

- `src/` is the verified library, one module per concern:
  - text, numbers and dates: `text`, `num`, `order`, `calendar`, `dates`, `markup`;
  - the book page: `book`, `cta`, `files`, `chips`, `identifiers`, `chapter_ref`,
    `highlights`, `journal`, `composer`, `marquee`, `stats`, `stats_view`,
    `discovery`, `shelves`, `mobile`;
  - the authors pages: `author`, `authors`;
  - accounts and administration: `auth`, `profile`, `settings`, `kobo`,
    `sessions`, `goals`, `uploads`, `health`.
  State machines take the outcome of each request as a plain value and say
  what the page does next; the requests themselves, the timers and the
  component tree run around them.
- `tests/` runs the library on concrete values.
- `app/` holds what stays outside: byte counts rendered with one decimal
  place and the floored star rating (floating point), the platform's device
  name, and the glue that hands those values to the library's views.
