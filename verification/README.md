# connectify

The verified core of the Connectify API service: the logic behind its Google Calendar,
Stripe, Payrexx and Twilio endpoints, written in Verus with its contracts proved.

- `src/` is the library. `slots` finds free appointment slots (with the laws of the
  search in `slot_laws`), `gcal` holds the calendar handlers' checks, slot pricing,
  booking conflicts and the calendar service's decisions (laws in `gcal_laws`),
  `stripe` and `stripe_signature` price checkouts, build Stripe requests, read replies,
  decide what a webhook event leads to and check webhook signatures (laws in
  `signature_laws`), `payrexx` signs and builds gateway requests, checks webhook signatures and maps errors
  to answers, and `twilio` prepares SMS and signs video access tokens (with
  `jsonwebtoken`).
  `time`, `text`, `codec` and `json` wrap `chrono`, `chrono-tz`, `hmac`, `sha2`, `hex`,
  `base64`, `serde_urlencoded` and `serde_json` behind stated contracts.
- `app/` is the Axum server around it: configuration loading, routes, HTTP calls to the
  outside services and the Google Calendar client, and the JSON forms of the types.
- `tests/` runs the library on concrete values.
