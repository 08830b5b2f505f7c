# riverstone_voice_svc

A REST backend for a voice assistant: it books appointments, keeps records of
calls and answers questions from a fixed knowledge base.

| Method | Path | What it does |
|--------|------|--------------|
| `GET` | `/healthz`, `/health` | Says that the service runs |
| `GET` | `/readyz` | Says whether the database replies |
| `POST` | `/book_appointment` | Confirms an appointment and stores it |
| `POST` | `/log_call` | Stores a call record |
| `GET` | `/calls/recent` | Gives out the newest call records, up to 20, newest first |
| `POST` | `/webhooks/call/ended` | Acknowledges that a call has ended |
| `GET` | `/kb` | Answers the question in the parameter `q` |

The `POST` endpoints and `/calls/recent` ask for `Authorization: Bearer <key>`.
A stored call whose JSON cannot be read is left out of what is given out. Stored
records have version 4 UUIDs as ids. Times are confirmed and stored in Melbourne
time (AEST or AEDT); a time that cannot be read is stored as it came, and a slot
that cannot be read is booked at the present.

`src/` is the verified library. What is answered and stored stands there with its
contract: who is let in, how a slot is confirmed, how records are laid out and
read back, which answer a question gets, the endpoints with their methods and
paths, statuses, defaults and the time limit of a request. The laws that hold
across functions are proof functions named `law_...`.

`app/` is the service around it: HTTP with its layers (tracing, CORS, the timer),
the SQL statements and the environment. It reads `DATABASE_URL`, `API_KEY` and
`BIND`, and listens on `0.0.0.0:3000` by default.
