# opay

`opay` takes payments for a platform of users: it sells credit and subscriptions, passes the
payment to a gateway (EasyPay or Stripe), waits for the gateway's notice, credits the user on the
platform, and gives refunds.

`src/` is the library. It holds every rule of the service and is verified with Verus: each
function states what it returns for every input, and the laws that relate functions stand as
public proof functions (`law_...`). `app/` is the program around it: the web server, the database,
the calls to the platform and the gateways, and the arithmetic on floating-point amounts.
`tests/` runs the library on concrete values, with an in-memory world in place of the database.

## How work is split

Work that needs the outside world is a state machine of the library. Each step either ends the
work or names one action; the program performs the action and hands the reply back. So the order
of the work, what is refused and why, and what is undone when something fails are all decided in
verified code. `order::flow` holds the actions and replies of work on orders, `http::create_order`
those of placing an order, `http::gate` those of letting a user in, `http::browse` those of what
users browse, and `http::user` those of what a user is told.

Orders are changed only through the methods of `OrderRecord`. The program loads an order inside a
transaction, applies one method and, if it reports a change, stores the record.

## Modules

| module | what it decides |
| --- | --- |
| `order::repository` | what an order holds, and which change of its state may follow which |
| `order::create`, `confirm`, `fulfil`, `notify`, `cancel`, `expire`, `retry`, `request`, `refund` | the work on an order from its placing to its refund |
| `order::status`, `audit`, `codegen` | the states of an order, its log, its recharge code |
| `payment` | payment types on offer, their limits and fees, and the instance that takes a payment |
| `payment_provider`, `signing` | requests to gateways, their answers and their notices |
| `sub2api` | requests to the platform and its answers |
| `subscription_plan`, `channel`, `provider_instances`, `system_config`, `db` | rows of the database, and the cache of settings |
| `http` | what users and administrators may ask for, and how they are answered |
| `config`, `admin_auth`, `masking` | the configuration, access of administrators, secrets that are shown |
| `crypto`, `hash`, `ids`, `clock`, `json`, `urlencoded` | sealed texts, digests, identifiers, time, documents |
| `text`, `lists`, `maps`, `money`, `error`, `response` | what the others are built on |

## What is taken on trust

The library calls `aes-gcm`, `sha2`, `hmac`, `md5`, `base64`, `chrono`, `uuid`, `serde_json` and
`serde_urlencoded` through small private functions whose contracts are believed. Each says in its
comment which function it calls and what it claims. They stand in `crypto`, `hash`, `clock`,
`ids`, `json` and `urlencoded`.

Amounts are whole cents in the library. A number that comes in as floating point is converted by
the program, which hands over the cents.
