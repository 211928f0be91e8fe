# paylio

A client library for the Paylio subscription API, written in Verus.

`src/` is the verified library. It decides everything about a call: which
request is sent (URL, query string, headers, JSON body), which arguments are
refused before anything is sent, and what a response turns into (decoded
body or a categorised error). Its modules:

- `error`: `PaylioError`, its accessors, and the mapping from HTTP status codes.
- `http_client`: request layout, error-body formats and response handling.
- `subscription`: the retrieve, list and cancel endpoints.
- `client`: `Client` and `ClientBuilder`.
- `json`: JSON documents as plain values, parsed with `serde_json`.
- `text`: trimming, trailing-slash removal and decimal rendering.
- `resources`: the resources that hold no floating-point amounts.

`app/` sends the prepared requests with `reqwest`, decodes responses with
`serde`, and holds the resources with floating-point amounts.
