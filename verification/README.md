# kangaroo_axum

Kangaroo serves static web applications through axum and injects
server-side data into their HTML documents as a JSON script element.

- `src/` is the verified library (Verus): the configuration and its paths,
  the choice of the document a page is rendered into and of where it is read
  from (disk or the development server), the status and data of a handler's
  result, the injection of the data script after the `<head>` tag, the URLs and the not-found fallback of
  the frontend development server client, the plan by which a router serves
  unrouted paths, and the parsing done by the `kangarooise` and `add_fields`
  attribute macros.
- `app/` is the unverified shell: the axum router extension, the HTTP client
  of the development server, file reading, JSON serialisation with serde,
  the `IntoKangarooError` trait, and the token handling of the macro
  expansions. It takes its decisions about documents, URLs, statuses and the
  macros' inputs from `src/`.
- `tests/` exercises the library on the scenarios of the web application.
