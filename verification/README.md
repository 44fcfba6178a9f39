# ifoundthephone

A web service that helps return lost phones. A user signs up and receives a
device id and a lock-screen image with a QR code of the device's page; whoever
finds the phone opens that page and leaves a message, which is e-mailed to the
owner.

- `src/` is the verified library (Verus): what every route answers (pages,
  redirects and the steps of the sign-up, login, found-device and
  authentication flows), password hashing and checking, user ids, and the
  text of the e-mails. Laws about these are proof functions beside the code.
- `app/` is the Rocket server around it: HTTP, PostgreSQL, SMTP and image
  drawing.
- `tests/` runs the library on concrete values.
