# sekai_client

A client of the game servers of Project Sekai, for the regions Jp, En, Tw, Kr and
Cn. It keeps a pool of logged-in accounts, hands their sessions out by role and in
turn, and puts refused sessions, expired cookies and outdated versions right while
a call is on its way.

- `src/` holds the decisions, verified with Verus. What has to be sent, fetched,
  read or waited for is handed out as an action; what came of it comes back as an
  event.
- `app/` is the client at work: HTTP, files, locks, timers and logging. It is
  generic over `GameProtocol`, which supplies the encryption of bodies, the table
  of HTTP statuses, and the stores of versions and cookies.
- `tests/` runs the library with the real crates that it calls.
