# bleebo

Publishes static sites on subdomains of `bleebo.dev`: a command-line client
uploads the current directory as a site, and a server serves each site on its
own subdomain and lets only the site's owner replace or delete it.

Layout:

- `src/` — the verified library (Verus): password hashing and checking,
  temporary passwords for new users, authentication of requests, which site a
  host names and which file answers a request, who may create, upload to or
  delete a site, and the client's request addresses and upload steps.
- `app/` — the program around it: command line, prompts, HTTP server and
  client, and the SQLite user store.
- `tests/` — tests of the library.
