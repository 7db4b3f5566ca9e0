use vstd::prelude::*;
use crate::changeset::StreamChangeset;
use crate::error::{disabled, ApiError, ErrorKind};
use crate::request::{
    auth_url, auth_url_result, call_result, create_recording_request, create_stream_call,
    create_stream_request, list_streams_call, list_user_streams_request, recording_request,
    request_result, update_stream_call, update_stream_request, ApiRequest, Identity, Network,
    RequestView, ServiceConfig, StreamCall,
};

verus! {

/// What the configuration gives: the failure of the server URL where it fails, else the failure
/// of the install id where that fails, else both, each failure as a configuration error.
pub open spec fn config_outcome(
    server_url: Result<Seq<char>, Seq<char>>,
    install_id: Result<Seq<char>, Seq<char>>,
) -> Result<(Seq<char>, Seq<char>), ErrorKind> {
    match server_url {
        Err(m) => Err(ErrorKind::Config(m)),
        Ok(s) => match install_id {
            Err(m) => Err(ErrorKind::Config(m)),
            Ok(i) => Ok((s, i)),
        },
    }
}

pub open spec fn pair_result(r: Result<(String, String), ApiError>) -> Result<(Seq<char>, Seq<char>), ErrorKind> {
    match r {
        Ok((s, i)) => Ok((s@, i@)),
        Err(e) => Err(e@),
    }
}

pub open spec fn auth_prepared(cfg: Result<(Seq<char>, Seq<char>), ErrorKind>) -> Result<Seq<char>, ErrorKind> {
    match cfg {
        Err(e) => Err(e),
        Ok((s, i)) => auth_url_result(s, i),
    }
}

pub open spec fn recording_prepared(
    cfg: Result<(Seq<char>, Seq<char>), ErrorKind>,
    path: Seq<char>,
    who: Identity,
) -> Result<RequestView, ErrorKind> {
    match cfg {
        Err(e) => Err(e),
        Ok((s, i)) => recording_request(s, path, i, who),
    }
}

pub open spec fn list_prepared(
    cfg: Result<(Seq<char>, Seq<char>), ErrorKind>,
    prefix: Seq<char>,
    who: Identity,
) -> Result<(RequestView, Seq<char>), ErrorKind> {
    match cfg {
        Err(e) => Err(e),
        Ok((s, i)) => list_streams_call(s, prefix, i, who),
    }
}

pub open spec fn create_prepared(
    cfg: Result<(Seq<char>, Seq<char>), ErrorKind>,
    c: StreamChangeset,
    who: Identity,
) -> Result<(RequestView, Seq<char>), ErrorKind> {
    match cfg {
        Err(e) => Err(e),
        Ok((s, i)) => create_stream_call(s, i, c, who),
    }
}

pub open spec fn update_prepared(
    cfg: Result<(Seq<char>, Seq<char>), ErrorKind>,
    id: u64,
    c: StreamChangeset,
    who: Identity,
) -> Result<(RequestView, Seq<char>), ErrorKind> {
    match cfg {
        Err(e) => Err(e),
        Ok((s, i)) => update_stream_call(s, i, id, c, who),
    }
}

/// The server URL and the install id, asked in that order; the first failure comes back as a
/// configuration error holding its message, and the install id is not asked for after the server
/// URL failed. Whatever the configuration answered, `r` is `config_outcome` of it.
fn server_and_id<C: ServiceConfig>(config: &mut C) -> (r: Result<(String, String), ApiError>)
    ensures
        exists|s: Result<Seq<char>, Seq<char>>, i: Result<Seq<char>, Seq<char>>| #[trigger]
            config_outcome(s, i) == pair_result(r),
{
    let server_url = match config.get_server_url() {
        Ok(u) => u,
        Err(m) => {
            let r = Err(ApiError::Config(m));
            assert(config_outcome(Err(m@), Err(m@)) == pair_result(r));
            return r;
        },
    };
    let install_id = match config.get_install_id() {
        Ok(i) => i,
        Err(m) => {
            let r = Err(ApiError::Config(m));
            assert(config_outcome(Ok(server_url@), Err(m@)) == pair_result(r));
            return r;
        },
    };
    let r = Ok((server_url, install_id));
    assert(config_outcome(Ok(server_url@), Ok(install_id@)) == pair_result(r));
    r
}

/// The URL at which this installation is connected to a user account, from the configuration.
pub fn get_auth_url<C: ServiceConfig>(config: &mut C) -> (r: Result<String, ApiError>)
    ensures
        exists|s: Result<Seq<char>, Seq<char>>, i: Result<Seq<char>, Seq<char>>| #[trigger]
            auth_prepared(config_outcome(s, i)) == match r {
                Ok(u) => Ok::<Seq<char>, ErrorKind>(u@),
                Err(e) => Err(e@),
            },
        r is Err ==> r->Err_0@ is Config,
{
    let cfg = server_and_id(config);
    let ghost w = choose|s: Result<Seq<char>, Seq<char>>, i: Result<Seq<char>, Seq<char>>| config_outcome(s, i) == pair_result(cfg);
    let r = match cfg {
        Err(e) => Err(e),
        Ok((server_url, install_id)) => auth_url(server_url.as_str(), install_id.as_str()),
    };
    assert(auth_prepared(config_outcome(w.0, w.1)) == match r {
        Ok(u) => Ok::<Seq<char>, ErrorKind>(u@),
        Err(e) => Err(e@),
    });
    r
}

/// The upload of the recording at `path`: refused at once while network access is switched off,
/// else built from the configuration.
pub fn prepare_create_recording<C: ServiceConfig>(
    network: &Network,
    config: &mut C,
    who: &Identity,
    path: &str,
) -> (r: Result<ApiRequest, ApiError>)
    ensures
        (r is Err && r->Err_0@ == ErrorKind::Disabled) <==> *network is Disabled,
        *network is Disabled ==> *final(config) == *old(config),
        *network is Enabled ==> exists|s: Result<Seq<char>, Seq<char>>, i: Result<Seq<char>, Seq<char>>| #[trigger]
            recording_prepared(config_outcome(s, i), path@, *who) == request_result(r),
        *network is Enabled && r is Err ==> r->Err_0@ is Config,
{
    if let Network::Disabled = network {
        return Err(disabled());
    }
    let cfg = server_and_id(config);
    let ghost w = choose|s: Result<Seq<char>, Seq<char>>, i: Result<Seq<char>, Seq<char>>| config_outcome(s, i) == pair_result(cfg);
    match cfg {
        Err(e) => {
            let r = Err(e);
            assert(recording_prepared(config_outcome(w.0, w.1), path@, *who) == request_result(r));
            r
        },
        Ok((server_url, install_id)) => {
            let r = create_recording_request(server_url.as_str(), path, install_id.as_str(), who);
            assert(recording_prepared(config_outcome(w.0, w.1), path@, *who) == request_result(r));
            r
        },
    }
}

/// The listing of the user's streams: refused at once while network access is switched off,
/// else built from the configuration.
pub fn prepare_list_user_streams<C: ServiceConfig>(
    network: &Network,
    config: &mut C,
    who: &Identity,
    prefix: &str,
) -> (r: Result<StreamCall, ApiError>)
    ensures
        (r is Err && r->Err_0@ == ErrorKind::Disabled) <==> *network is Disabled,
        *network is Disabled ==> *final(config) == *old(config),
        *network is Enabled ==> exists|s: Result<Seq<char>, Seq<char>>, i: Result<Seq<char>, Seq<char>>| #[trigger]
            list_prepared(config_outcome(s, i), prefix@, *who) == call_result(r),
        *network is Enabled && r is Err ==> r->Err_0@ is Config,
{
    if let Network::Disabled = network {
        return Err(disabled());
    }
    let cfg = server_and_id(config);
    let ghost w = choose|s: Result<Seq<char>, Seq<char>>, i: Result<Seq<char>, Seq<char>>| config_outcome(s, i) == pair_result(cfg);
    match cfg {
        Err(e) => {
            let r = Err(e);
            assert(list_prepared(config_outcome(w.0, w.1), prefix@, *who) == call_result(r));
            r
        },
        Ok((server_url, install_id)) => {
            let r = list_user_streams_request(server_url.as_str(), prefix, install_id.as_str(), who);
            assert(list_prepared(config_outcome(w.0, w.1), prefix@, *who) == call_result(r));
            r
        },
    }
}

/// The creation of a stream: refused at once while network access is switched off, else built
/// from the configuration.
pub fn prepare_create_stream<C: ServiceConfig>(
    network: &Network,
    config: &mut C,
    who: &Identity,
    changeset: &StreamChangeset,
) -> (r: Result<StreamCall, ApiError>)
    requires
        changeset.well_formed(),
    ensures
        (r is Err && r->Err_0@ == ErrorKind::Disabled) <==> *network is Disabled,
        *network is Disabled ==> *final(config) == *old(config),
        *network is Enabled ==> exists|s: Result<Seq<char>, Seq<char>>, i: Result<Seq<char>, Seq<char>>| #[trigger]
            create_prepared(config_outcome(s, i), *changeset, *who) == call_result(r),
        *network is Enabled && r is Err ==> r->Err_0@ is Config,
{
    if let Network::Disabled = network {
        return Err(disabled());
    }
    let cfg = server_and_id(config);
    let ghost w = choose|s: Result<Seq<char>, Seq<char>>, i: Result<Seq<char>, Seq<char>>| config_outcome(s, i) == pair_result(cfg);
    match cfg {
        Err(e) => {
            let r = Err(e);
            assert(create_prepared(config_outcome(w.0, w.1), *changeset, *who) == call_result(r));
            r
        },
        Ok((server_url, install_id)) => {
            let r = create_stream_request(server_url.as_str(), install_id.as_str(), changeset, who);
            assert(create_prepared(config_outcome(w.0, w.1), *changeset, *who) == call_result(r));
            r
        },
    }
}

/// The update of a stream: refused at once while network access is switched off, else built
/// from the configuration.
pub fn prepare_update_stream<C: ServiceConfig>(
    network: &Network,
    config: &mut C,
    who: &Identity,
    stream_id: u64,
    changeset: &StreamChangeset,
) -> (r: Result<StreamCall, ApiError>)
    requires
        changeset.well_formed(),
    ensures
        (r is Err && r->Err_0@ == ErrorKind::Disabled) <==> *network is Disabled,
        *network is Disabled ==> *final(config) == *old(config),
        *network is Enabled ==> exists|s: Result<Seq<char>, Seq<char>>, i: Result<Seq<char>, Seq<char>>| #[trigger]
            update_prepared(config_outcome(s, i), stream_id, *changeset, *who) == call_result(r),
        *network is Enabled && r is Err ==> r->Err_0@ is Config,
{
    if let Network::Disabled = network {
        return Err(disabled());
    }
    let cfg = server_and_id(config);
    let ghost w = choose|s: Result<Seq<char>, Seq<char>>, i: Result<Seq<char>, Seq<char>>| config_outcome(s, i) == pair_result(cfg);
    match cfg {
        Err(e) => {
            let r = Err(e);
            assert(update_prepared(config_outcome(w.0, w.1), stream_id, *changeset, *who) == call_result(r));
            r
        },
        Ok((server_url, install_id)) => {
            let r = update_stream_request(server_url.as_str(), install_id.as_str(), stream_id, changeset, who);
            assert(update_prepared(config_outcome(w.0, w.1), stream_id, *changeset, *who) == call_result(r));
            r
        },
    }
}

} // verus!
