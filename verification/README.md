# aruaru_pro

The verified core of aruaru.pro, a skill marketplace combined with a job
board. The library (`src/`) holds the service's rules with contracts proved
by Verus; `app/` is the HTTP server around it (routes, database, Stripe and
the OAuth providers' APIs), which Verus does not see.

## Library modules

- `text`: characters of a text, Unicode white space and trimming, splitting,
  prefixes and joining, each against a spec over `Seq<char>`.
- `ids`: slugs and entity ids (readable slug or fallback prefix, then sixteen
  hex digits of a `DefaultHasher` hash of the parts), random tokens.
- `auth`: roles, registration checks, role and name checks, the session
  cookie, reading credentials from the `Authorization` and `Cookie` headers,
  session expiry, the clock.
- `oauth`: the providers and their endpoints, percent encoding and decoding,
  query strings, base64url, PKCE, the sign-in URL and checks.
- `services`, `orders`, `reviews`, `job_listings`, `career_agent_programs`:
  the checks on each kind of write and the ids of what they store; the order
  status machine.
- `categories`: the category master list.
- `stripe_connect`: the platform fee and the payment addresses.
- `rejection`: the status and message a refused request is answered with.

Public proof functions named `law_*` state the properties that hold across
all inputs (ids are deterministic, decoding inverts encoding, settled orders
stay settled, the fee rounds down for the seller, and so on).

## Outside crates

- `sha2` computes the SHA-256 digest behind the PKCE challenge.
- `getrandom` is the source of random tokens (session ids, OAuth `state`,
  PKCE verifiers). Tokens must be unpredictable, so they come from the
  operating system's random source rather than from a hash or the clock;
  `getrandom` is the small crate that reads that source on every platform
  and reports failure instead of panicking.
- The HTTP server, the database client, the Stripe and OAuth providers' APIs
  and JSON handling are used by `app/` only.
