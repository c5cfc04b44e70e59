# drainer

The startup and shutdown logic of the drainer, verified with Verus.

- `src/bootstrap.rs`: the stages from the command line to the running application
- `src/store_init.rs`: the initialization of the tenant stores, with bounded concurrency
- `src/application.rs`: the running application, what ends it, and its graceful shutdown
- `src/cancellation.rs`: the cancellation token of `tokio-util`
- `src/errors.rs`: what can go wrong, and the words in which it is reported
- `src/settings.rs`: the configuration, as far as the startup reads it
- `src/test_support.rs`: mocks of the stores and services
- `src/delay.rs`, `src/decimal.rs`: spans of time, and numbers in digits

The library decides; it awaits nothing. `app/` runs the tasks with tokio, hands
the library what becomes of them and does what it answers. The stores and
services of a deployment come in through the `Platform` trait there; `main` links
the mocks.
