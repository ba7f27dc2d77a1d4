use vstd::prelude::*;
use vstd::string::*;
use crate::error::PlatformError;
use crate::platform::{
    resolve_platform, spec_resolve_platform, Arch, Host, HostOs, Os, Platform,
};
use crate::product::Product;
use crate::text::{contains, ends_with, lemma_contains_middle, lemma_ends_with_tail};

verus! {

/// How an archive is decoded.
#[derive(Clone, Copy, Debug, PartialEq, Eq, Structural)]
pub enum DecoderKind {
    Zip,
    TarGzip,
}

impl DecoderKind {
    /// The extension of the archives that the decoder reads.
    pub open spec fn spec_extension(self) -> Seq<char> {
        match self {
            DecoderKind::Zip => ".zip"@,
            DecoderKind::TarGzip => ".tar.gz"@,
        }
    }

    /// What the decoder appends to the name of a scratch file.
    pub open spec fn spec_suffix(self) -> Seq<char> {
        match self {
            DecoderKind::Zip => ".zip"@,
            DecoderKind::TarGzip => "tar.gz"@,
        }
    }

    /// The extension of the archives that the decoder reads.
    pub fn extension(&self) -> (extension: &'static str)
        ensures
            extension@ == self.spec_extension(),
    {
        match self {
            DecoderKind::Zip => ".zip",
            DecoderKind::TarGzip => ".tar.gz",
        }
    }
}

/// The suffix that `compress_manager::DirDecoder::suffix` gives for the
/// decoder of the same kind: `.zip` for zip archives and `tar.gz`, without a
/// dot before it, for gzipped tar archives. The text is copied into a string
/// of its own.
#[verifier::external_body]
pub(crate) fn decoder_suffix(kind: DecoderKind) -> (suffix: String)
    ensures
        suffix@ == kind.spec_suffix(),
{
    match kind {
        DecoderKind::Zip => compress_manager::DirDecoder::Zip.suffix().to_string(),
        DecoderKind::TarGzip => compress_manager::DirDecoder::TarGzip.suffix().to_string(),
    }
}

/// The number of characters `mark` with which `text` begins.
pub open spec fn leading_run(text: Seq<char>, mark: char) -> nat
    decreases text.len(),
{
    if text.len() > 0 && text[0] == mark {
        1 + leading_run(text.drop_first(), mark)
    } else {
        0
    }
}

/// `text` without the characters `mark` at its start.
pub open spec fn spec_strip_leading(text: Seq<char>, mark: char) -> Seq<char> {
    text.skip(leading_run(text, mark) as int)
}

/// The run at the start of a text is the one stretch of `mark` from the start
/// that no `mark` follows.
pub proof fn lemma_leading_run(text: Seq<char>, mark: char, len: nat)
    requires
        len <= text.len(),
        forall|i: int| 0 <= i < len ==> text[i] == mark,
        len < text.len() ==> text[len as int] != mark,
    ensures
        leading_run(text, mark) == len,
    decreases text.len(),
{
    if len > 0 {
        let rest = text.drop_first();
        assert forall|i: int| 0 <= i < len - 1 implies rest[i] == mark by {
            assert(rest[i] == text[i + 1]);
        }
        if len - 1 < rest.len() {
            assert(rest[len - 1] == text[len as int]);
        }
        lemma_leading_run(rest, mark, (len - 1) as nat);
    }
}

/// `text` without the characters `mark` at its start.
pub fn strip_leading(text: &str, mark: char) -> (rest: String)
    ensures
        rest@ == spec_strip_leading(text@, mark),
{
    let total = text.unicode_len();
    let mut run: usize = 0;
    let mut seen: usize = 0;
    for c in it: text.chars()
        invariant
            it.seq() == text@,
            total == text@.len(),
            seen == it.index(),
            run <= seen <= total,
            forall|i: int| 0 <= i < run ==> text@[i] == mark,
            run < seen ==> text@[run as int] != mark,
    {
        if run == seen && c == mark {
            run = run + 1;
        }
        seen = seen + 1;
    }
    proof {
        lemma_leading_run(text@, mark, run as nat);
    }
    String::from_str(text.substring_char(run, total))
}

/// What is downloaded for a product on a platform, and how it is decoded.
#[derive(Clone, Debug, PartialEq, Eq)]
pub struct ArchiveSpec {
    pub file_name: String,
    pub decoder: DecoderKind,
    pub download_url: String,
}

pub struct ArchiveSpecView {
    pub file_name: Seq<char>,
    pub decoder: DecoderKind,
    pub download_url: Seq<char>,
}

impl View for ArchiveSpec {
    type V = ArchiveSpecView;

    open spec fn view(&self) -> ArchiveSpecView {
        ArchiveSpecView {
            file_name: self.file_name@,
            decoder: self.decoder,
            download_url: self.download_url@,
        }
    }
}

/// Whether archives of `product` are published for the operating system.
pub open spec fn spec_is_supported(product: Product, os: Os) -> bool {
    !(product == Product::SubnetEvm && os == Os::Windows)
}

/// How the archive of `product` for the operating system is decoded.
pub open spec fn spec_decoder(product: Product, os: Os) -> DecoderKind {
    match (product, os) {
        (Product::AvalancheGo, Os::MacOs) => DecoderKind::Zip,
        (Product::AvalancheGo, Os::Linux) => DecoderKind::TarGzip,
        (Product::AvalancheGo, Os::Windows) => DecoderKind::Zip,
        (Product::SubnetEvm, _) => DecoderKind::TarGzip,
    }
}

/// The form in which the tag stands in the file name: the plugin's archives
/// are named by the tag without the `v` at its start.
pub open spec fn spec_tag_in_name(product: Product, tag: Seq<char>) -> Seq<char> {
    match product {
        Product::AvalancheGo => tag,
        Product::SubnetEvm => spec_strip_leading(tag, 'v'),
    }
}

/// The name of the archive of the release `tag` of `product` for a platform
/// that the product supports.
pub open spec fn spec_file_name(product: Product, tag: Seq<char>, platform: Platform) -> Seq<
    char,
> {
    let arch = platform.arch.spec_label();
    match (product, platform.os) {
        (Product::AvalancheGo, Os::MacOs) => "avalanchego-macos-"@ + tag + ".zip"@,
        (Product::AvalancheGo, Os::Linux) => "avalanchego-linux-"@ + arch + "-"@ + tag
            + ".tar.gz"@,
        (Product::AvalancheGo, Os::Windows) => "avalanchego-win-"@ + tag + "-experimental.zip"@,
        (Product::SubnetEvm, Os::MacOs) => "subnet-evm_"@ + spec_strip_leading(tag, 'v')
            + "_darwin_"@ + arch + ".tar.gz"@,
        (Product::SubnetEvm, _) => "subnet-evm_"@ + spec_strip_leading(tag, 'v') + "_linux_"@
            + arch + ".tar.gz"@,
    }
}

/// The address from which the file `file_name` of the release `tag` of
/// `product` is downloaded.
pub open spec fn spec_download_url(product: Product, tag: Seq<char>, file_name: Seq<char>) -> Seq<
    char,
> {
    "https://github.com/"@ + product.spec_org() + "/"@ + product.spec_repo()
        + "/releases/download/"@ + tag + "/"@ + file_name
}

/// The archive of the release `tag` of `product` for `platform`, if the
/// product is published for it.
pub open spec fn spec_archive(product: Product, tag: Seq<char>, platform: Platform) -> Option<
    ArchiveSpecView,
> {
    if spec_is_supported(product, platform.os) {
        Some(
            ArchiveSpecView {
                file_name: spec_file_name(product, tag, platform),
                decoder: spec_decoder(product, platform.os),
                download_url: spec_download_url(
                    product,
                    tag,
                    spec_file_name(product, tag, platform),
                ),
            },
        )
    } else {
        None
    }
}

/// The name of the archive of the release `tag` of `product` for `platform`.
fn file_name(product: Product, tag: &str, platform: Platform) -> (name: String)
    requires
        spec_is_supported(product, platform.os),
    ensures
        name@ == spec_file_name(product, tag@, platform),
{
    let arch = platform.arch.to_string();
    match product {
        Product::AvalancheGo => match platform.os {
            Os::MacOs => {
                let mut name = String::from_str("avalanchego-macos-");
                name.append(tag);
                name.append(".zip");
                name
            },
            Os::Linux => {
                let mut name = String::from_str("avalanchego-linux-");
                name.append(arch.as_str());
                name.append("-");
                name.append(tag);
                name.append(".tar.gz");
                name
            },
            Os::Windows => {
                let mut name = String::from_str("avalanchego-win-");
                name.append(tag);
                name.append("-experimental.zip");
                name
            },
        },
        Product::SubnetEvm => {
            let version = strip_leading(tag, 'v');
            let mut name = String::from_str("subnet-evm_");
            name.append(version.as_str());
            match platform.os {
                Os::MacOs => name.append("_darwin_"),
                _ => name.append("_linux_"),
            }
            name.append(arch.as_str());
            name.append(".tar.gz");
            name
        },
    }
}

/// The address from which `file_name` of the release `tag` of `product` is
/// downloaded.
pub fn download_url(product: Product, tag: &str, file_name: &str) -> (url: String)
    ensures
        url@ == spec_download_url(product, tag@, file_name@),
{
    let mut url = String::from_str("https://github.com/");
    url.append(product.org());
    url.append("/");
    url.append(product.repo());
    url.append("/releases/download/");
    url.append(tag);
    url.append("/");
    url.append(file_name);
    url
}

/// The archive of the release `tag` of `product` for `platform`: its name,
/// its decoder and the address to download it from. A platform for which the
/// product is not published is an unknown platform.
pub fn archive_for(product: Product, tag: &str, platform: Platform) -> (archive: Result<
    ArchiveSpec,
    PlatformError,
>)
    ensures
        match spec_archive(product, tag@, platform) {
            Some(spec) => archive matches Ok(built) && built@ == spec,
            None => archive == Err::<ArchiveSpec, PlatformError>(PlatformError::UnknownPlatform),
        },
{
    let decoder = match (product, platform.os) {
        (Product::SubnetEvm, Os::Windows) => {
            return Err(PlatformError::UnknownPlatform);
        },
        (Product::AvalancheGo, Os::MacOs) => DecoderKind::Zip,
        (Product::AvalancheGo, Os::Linux) => DecoderKind::TarGzip,
        (Product::AvalancheGo, Os::Windows) => DecoderKind::Zip,
        (Product::SubnetEvm, _) => DecoderKind::TarGzip,
    };
    let file_name = file_name(product, tag, platform);
    let download_url = download_url(product, tag, file_name.as_str());
    Ok(ArchiveSpec { file_name, decoder, download_url })
}

/// The archive of the release `tag` of `product` for the platform that the
/// caller chose, the host's own standing in for what the caller left open.
/// Fails with an unknown platform where the platform cannot be made out or
/// the product is not published for it.
pub fn build_archive_spec(
    product: Product,
    tag: &str,
    arch: Option<Arch>,
    os: Option<Os>,
    host: &Host,
) -> (archive: Result<ArchiveSpec, PlatformError>)
    ensures
        match spec_resolve_platform(arch, os, host.arch@, host.os) {
            Some(platform) => match spec_archive(product, tag@, platform) {
                Some(spec) => archive matches Ok(built) && built@ == spec,
                None => archive == Err::<ArchiveSpec, PlatformError>(
                    PlatformError::UnknownPlatform,
                ),
            },
            None => archive == Err::<ArchiveSpec, PlatformError>(PlatformError::UnknownPlatform),
        },
{
    match resolve_platform(arch, os, host) {
        Ok(platform) => archive_for(product, tag, platform),
        Err(_) => Err(PlatformError::UnknownPlatform),
    }
}

/// What is said where no archive can be made out. The node names the
/// system of the host. The plugin says that Windows is not supported where
/// the caller chose it, that the system is unknown where the caller left the
/// choice to a host that is neither macOS nor another Unix, and names the
/// system of the host otherwise.
pub open spec fn spec_unknown_platform_text(
    product: Product,
    os: Option<Os>,
    host: HostOs,
    host_name: Seq<char>,
) -> Seq<char> {
    if product == Product::SubnetEvm && os == Some(Os::Windows) {
        "windows not supported"@
    } else if product == Product::SubnetEvm && os is None && host != HostOs::MacOs && host
        != HostOs::Unix {
        "unknown OS"@
    } else {
        "unknown platform '"@ + host_name + "'"@
    }
}

/// What is said where no archive can be made out, for the product, the
/// operating system that the caller chose, and the host with the name of its
/// system.
pub fn unknown_platform_text(
    product: Product,
    os: Option<Os>,
    host: HostOs,
    host_name: &str,
) -> (text: String)
    ensures
        text@ == spec_unknown_platform_text(product, os, host, host_name@),
{
    let plugin = match product {
        Product::SubnetEvm => true,
        Product::AvalancheGo => false,
    };
    let chose_windows = match os {
        Some(Os::Windows) => true,
        _ => false,
    };
    let open_choice = match os {
        None => true,
        Some(_) => false,
    };
    let unix = match host {
        HostOs::MacOs => true,
        HostOs::Unix => true,
        _ => false,
    };
    if plugin && chose_windows {
        String::from_str("windows not supported")
    } else if plugin && open_choice && !unix {
        String::from_str("unknown OS")
    } else {
        let mut text = String::from_str("unknown platform '");
        text.append(host_name);
        text.append("'");
        text
    }
}

/// The name of an archive holds the tag, in the form in which the product
/// writes it, and ends in the extension of its decoder and in no other; the
/// address of the download holds the tag as it is.
pub proof fn lemma_archive_names_the_tag(product: Product, tag: Seq<char>, platform: Platform)
    requires
        spec_is_supported(product, platform.os),
    ensures
        contains(spec_file_name(product, tag, platform), spec_tag_in_name(product, tag)),
        ends_with(spec_file_name(product, tag, platform), ".zip"@) <==> spec_decoder(
            product,
            platform.os,
        ) == DecoderKind::Zip,
        ends_with(spec_file_name(product, tag, platform), ".tar.gz"@) <==> spec_decoder(
            product,
            platform.os,
        ) == DecoderKind::TarGzip,
        contains(
            spec_download_url(product, tag, spec_file_name(product, tag, platform)),
            tag,
        ),
        ends_with(
            spec_download_url(product, tag, spec_file_name(product, tag, platform)),
            spec_file_name(product, tag, platform),
        ),
{
    reveal_strlit(".zip");
    reveal_strlit(".tar.gz");
    reveal_strlit("-experimental.zip");
    let arch = platform.arch.spec_label();
    let name = spec_file_name(product, tag, platform);
    let version = spec_strip_leading(tag, 'v');
    match (product, platform.os) {
        (Product::AvalancheGo, Os::MacOs) => {
            lemma_contains_middle("avalanchego-macos-"@, tag, ".zip"@);
            lemma_ends_with_tail("avalanchego-macos-"@ + tag, ".zip"@);
            assert(name.last() == 'p');
        },
        (Product::AvalancheGo, Os::Linux) => {
            let head = "avalanchego-linux-"@ + arch + "-"@;
            lemma_contains_middle(head, tag, ".tar.gz"@);
            lemma_ends_with_tail(head + tag, ".tar.gz"@);
            assert(name.last() == 'z');
        },
        (Product::AvalancheGo, Os::Windows) => {
            lemma_contains_middle("avalanchego-win-"@, tag, "-experimental.zip"@);
            let head = "avalanchego-win-"@ + tag + "-experimental"@;
            reveal_strlit("-experimental");
            assert(name =~= head + ".zip"@);
            lemma_ends_with_tail(head, ".zip"@);
            assert(name.last() == 'p');
        },
        (Product::SubnetEvm, Os::MacOs) => {
            let tail = "_darwin_"@ + arch + ".tar.gz"@;
            assert(name =~= "subnet-evm_"@ + version + tail);
            lemma_contains_middle("subnet-evm_"@, version, tail);
            lemma_ends_with_tail("subnet-evm_"@ + version + "_darwin_"@ + arch, ".tar.gz"@);
            assert(name.last() == 'z');
        },
        (Product::SubnetEvm, _) => {
            let tail = "_linux_"@ + arch + ".tar.gz"@;
            assert(name =~= "subnet-evm_"@ + version + tail);
            lemma_contains_middle("subnet-evm_"@, version, tail);
            lemma_ends_with_tail("subnet-evm_"@ + version + "_linux_"@ + arch, ".tar.gz"@);
            assert(name.last() == 'z');
        },
    }
    assert(ends_with(name, ".zip"@) ==> name.last() == 'p') by {
        if ends_with(name, ".zip"@) {
            assert(name.subrange(name.len() - 4, name.len() as int)[3] == 'p');
        }
    }
    assert(ends_with(name, ".tar.gz"@) ==> name.last() == 'z') by {
        if ends_with(name, ".tar.gz"@) {
            assert(name.subrange(name.len() - 7, name.len() as int)[6] == 'z');
        }
    }
    let url = spec_download_url(product, tag, name);
    let head = "https://github.com/"@ + product.spec_org() + "/"@ + product.spec_repo()
        + "/releases/download/"@;
    assert(url =~= head + tag + ("/"@ + name));
    lemma_contains_middle(head, tag, "/"@ + name);
    lemma_ends_with_tail(head + tag + "/"@, name);
}

} // verus!
