# pmocontrol

The control point of PMOMusic: it drives UPnP/OpenHome, LinkPlay and Arylic
renderers, keeps their queues, and answers the REST API that steers them.
This crate is its core, written in Verus. The functions of `src/` are
proved against their contracts, except the small `#[verifier::external_body]`
wrappers around std, quick-xml, xmltree and rand, whose contracts are
trusted and say in their doc comments what they claim.

## Layout

- `src/` — the verified library.
  - `text`, `xml`, `didl`, `codec`: characters, XML escaping, DIDL-Lite
    documents, base64.
  - `soap`, `upnp_clients`, `openhome`, `openhome_playlist`: SOAP requests
    and the reading of their answers for the AVTransport, RenderingControl
    and OpenHome services.
  - `queue`: the queue backends (a local queue and the OpenHome playlist of
    a renderer), the diff that synchronises a playlist with a desired list,
    and the laws they keep.
  - `music_renderer`: time formats, sleep timer, stream detection, the state
    a renderer watcher keeps, and the LinkPlay, Arylic and OpenHome
    renderers.
  - `provider`, `online`, `registry`: device descriptions and presence.
  - `openapi`, `command_replies`, `covers`: the records and answers of the
    REST API.
- `app/` — the I/O around the library: HTTP transport of SOAP actions, the
  LinkPlay HTTP API, JSON decoding, stream probing, description fetching, and
  the serde forms of the REST records.
- `tests/` — tests of the library.

Operations that talk to a device take the transport as a function argument
(`Fn(SoapRequest) -> SoapCallResult`, a LinkPlay getter, an Arylic command
sender). Their contracts name the requests whose answers decide the result
and say how each such answer is read; they do not say that no other request
went through the transport.
