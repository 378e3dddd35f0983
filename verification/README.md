# ca_core

The core of a small signup and user management service built the clean
architecture way, verified with Verus.

- `src/value_object`, `src/entity`: ids, emails, user names, passwords, roles,
  users, the auth context, and the signup process, a typestate machine
  (`Initialized` → `VerificationEmailSent` → `EmailVerified` → `Completed`,
  with `Failed` and `ForDeletion` on the side).
- `src/gateway`: the records and errors that the repositories and services
  exchange with the use cases.
- `src/usecase`: each use case is a step machine. `start` takes the request
  and names the first gateway call (`Command`); `resume` takes the gateway's
  `Reply` and names the next call, until the run finishes with its result.
  Authorization (`AdminOnly`, `AdminAndOwnerOnly`, `Public`) is part of the
  `Usecase` trait. `usecase::user::validate` checks the byte lengths of a
  user name, an email address and a password against their limits.
- `src/adapter`: the controller's decisions for a request: ingestion,
  auth extraction, authorization, execution, presentation.
- `app/`: the asynchronous gateway interfaces, the runner that performs the
  commands of a use case, the controller's request loop, and conversions to
  UUIDs, `chrono` times, `validator` errors and serializable errors.
