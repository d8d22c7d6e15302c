//! The HTTP face of manifest generation: the command a request asks for.

use vstd::prelude::*;
use super::dto::{GenerateDockerManifestCommand, GenerateDockerManifestRequest};
use super::use_case::GenerateDockerManifestUseCase;

verus! {

/// The manifest generation API over its use case.
pub struct GenerateDockerManifestApi {
    pub use_case: GenerateDockerManifestUseCase,
}

impl GenerateDockerManifestApi {
    pub fn new(use_case: GenerateDockerManifestUseCase) -> (r: Self)
        ensures
            r.use_case == use_case,
    {
        GenerateDockerManifestApi { use_case }
    }

    /// The generation command of a request: the same repository, tag,
    /// repository id, media type and regeneration flag.
    pub fn command_for(request: GenerateDockerManifestRequest) -> (r: GenerateDockerManifestCommand)
        ensures
            r.repository_name == request.repository_name,
            r.tag == request.tag,
            r.repository_id == request.repository_id,
            r.media_type == request.media_type,
            r.force_regenerate == request.force_regenerate,
    {
        GenerateDockerManifestCommand {
            repository_name: request.repository_name,
            tag: request.tag,
            repository_id: request.repository_id,
            media_type: request.media_type,
            force_regenerate: request.force_regenerate,
        }
    }
}

} // verus!
