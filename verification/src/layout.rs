use vstd::prelude::*;
use vstd::string::*;
use crate::archive::{decoder_suffix, DecoderKind};
use crate::path::{is_absolute, join, lemma_parent_of_joined, spec_join, spec_plugins_dir};
use crate::product::Product;
use crate::text::{ends_with, lemma_ends_with_tail};

verus! {

/// The permission bits of an installed file: read, write and execute for
/// owner, group and everyone else.
pub const EXECUTABLE_MODE: u32 = 0o777;

/// Where a release lies once its archive is unpacked.
#[derive(Clone, Debug, PartialEq, Eq)]
pub struct InstalledArtifact {
    pub binary_path: String,
    /// The directory of the plugins; the node has one, the plugin none.
    pub plugins_dir: Option<String>,
}

pub struct InstalledArtifactView {
    pub binary_path: Seq<char>,
    pub plugins_dir: Option<Seq<char>>,
}

impl View for InstalledArtifact {
    type V = InstalledArtifactView;

    open spec fn view(&self) -> InstalledArtifactView {
        InstalledArtifactView {
            binary_path: self.binary_path@,
            plugins_dir: match self.plugins_dir {
                Some(dir) => Some(dir@),
                None => None,
            },
        }
    }
}

/// The directory under `root`, where the archive was unpacked, that holds the
/// binary. A zip archive of the node unpacks into `build`, a tar archive into
/// a directory named by product and tag; the plugin lies in `root` itself.
pub open spec fn spec_install_dir(
    product: Product,
    decoder: DecoderKind,
    tag: Seq<char>,
    root: Seq<char>,
) -> Seq<char> {
    match product {
        Product::AvalancheGo => match decoder {
            DecoderKind::Zip => spec_join(root, "build"@),
            DecoderKind::TarGzip => spec_join(root, "avalanchego-"@ + tag),
        },
        Product::SubnetEvm => root,
    }
}

/// Where the release `tag` of `product` lies under `root` after its archive
/// was unpacked there with `decoder`.
pub open spec fn spec_installed(
    product: Product,
    decoder: DecoderKind,
    tag: Seq<char>,
    root: Seq<char>,
) -> InstalledArtifactView {
    let dir = spec_install_dir(product, decoder, tag, root);
    InstalledArtifactView {
        binary_path: spec_join(dir, product.spec_binary_name()),
        plugins_dir: match product {
            Product::AvalancheGo => Some(spec_join(dir, "plugins"@)),
            Product::SubnetEvm => None,
        },
    }
}

/// Whether archives of this kind unpack into the layout of zip archives,
/// told by the suffix of the decoder.
pub fn has_zip_layout(decoder: DecoderKind) -> (zip: bool)
    ensures
        zip == (decoder == DecoderKind::Zip),
{
    let suffix = decoder_suffix(decoder);
    let zip = decoder_suffix(DecoderKind::Zip);
    proof {
        reveal_strlit(".zip");
        reveal_strlit("tar.gz");
        assert(".zip"@.len() != "tar.gz"@.len());
    }
    suffix == zip
}

/// The directory under `root` that holds the binary.
pub fn install_dir(product: Product, decoder: DecoderKind, tag: &str, root: &str) -> (dir: String)
    ensures
        dir@ == spec_install_dir(product, decoder, tag@, root@),
{
    match product {
        Product::AvalancheGo => {
            if has_zip_layout(decoder) {
                join(root, "build")
            } else {
                let mut name = String::from_str("avalanchego-");
                name.append(tag);
                join(root, name.as_str())
            }
        },
        Product::SubnetEvm => String::from_str(root),
    }
}

/// Where the release `tag` of `product` lies under `root` after its archive
/// was unpacked there with `decoder`.
pub fn installed_artifact(product: Product, decoder: DecoderKind, tag: &str, root: &str) -> (found:
    InstalledArtifact)
    ensures
        found@ == spec_installed(product, decoder, tag@, root@),
{
    let dir = install_dir(product, decoder, tag, root);
    let binary_path = join(dir.as_str(), product.binary_name());
    let plugins_dir = match product {
        Product::AvalancheGo => Some(join(dir.as_str(), "plugins")),
        Product::SubnetEvm => None,
    };
    InstalledArtifact { binary_path, plugins_dir }
}

/// A name that does not start at the root, placed under a directory that has
/// a name, lies behind a separator at the end of the path.
pub proof fn lemma_join_ends_with_name(base: Seq<char>, name: Seq<char>)
    requires
        base.len() > 0,
        !is_absolute(name),
    ensures
        ends_with(spec_join(base, name), "/"@ + name),
{
    reveal_strlit("/");
    if base.last() == '/' {
        assert(base + name =~= base.drop_last() + ("/"@ + name));
        lemma_ends_with_tail(base.drop_last(), "/"@ + name);
    } else {
        assert(base + "/"@ + name =~= base + ("/"@ + name));
        lemma_ends_with_tail(base, "/"@ + name);
    }
}

/// A tar archive of the node, unpacked under a directory that has a name,
/// yields the binary and the plugins side by side in the directory named by
/// product and tag, for every tag that does not end in a separator.
pub proof fn lemma_node_layout_of_tar(tag: Seq<char>, root: Seq<char>)
    requires
        root.len() > 0,
        tag.len() > 0 ==> tag.last() != '/',
    ensures
        ends_with(
            spec_installed(Product::AvalancheGo, DecoderKind::TarGzip, tag, root).binary_path,
            "/"@ + ("avalanchego-"@ + tag) + "/"@ + "avalanchego"@,
        ),
        ends_with(
            spec_installed(
                Product::AvalancheGo,
                DecoderKind::TarGzip,
                tag,
                root,
            ).plugins_dir.unwrap(),
            "/"@ + ("avalanchego-"@ + tag) + "/"@ + "plugins"@,
        ),
{
    reveal_strlit("/");
    reveal_strlit("avalanchego-");
    reveal_strlit("avalanchego");
    reveal_strlit("plugins");
    let name = "avalanchego-"@ + tag;
    assert(name[0] == 'a');
    let dir = spec_join(root, name);
    lemma_join_ends_with_name(root, name);
    let tail = "/"@ + name;
    let head = dir.take(dir.len() - tail.len());
    assert(dir =~= head + tail);
    assert(name.last() != '/');
    assert(dir.last() == name.last());
    lemma_name_under(head, tail, "avalanchego"@);
    lemma_name_under(head, tail, "plugins"@);
}

/// A tar archive of the node yields the binary and the plugins in the
/// directory named by product and tag wherever it is unpacked, be it under
/// the empty path, for every tag that does not end in a separator.
pub proof fn lemma_node_layout_of_tar_anywhere(tag: Seq<char>, root: Seq<char>)
    requires
        tag.len() > 0 ==> tag.last() != '/',
    ensures
        ends_with(
            spec_installed(Product::AvalancheGo, DecoderKind::TarGzip, tag, root).binary_path,
            "avalanchego-"@ + tag + "/"@ + "avalanchego"@,
        ),
        ends_with(
            spec_installed(
                Product::AvalancheGo,
                DecoderKind::TarGzip,
                tag,
                root,
            ).plugins_dir.unwrap(),
            "avalanchego-"@ + tag + "/"@ + "plugins"@,
        ),
{
    reveal_strlit("/");
    reveal_strlit("avalanchego-");
    reveal_strlit("avalanchego");
    reveal_strlit("plugins");
    let name = "avalanchego-"@ + tag;
    assert(name[0] == 'a');
    assert(name.last() != '/');
    let dir = spec_join(root, name);
    let head = if root.len() == 0 {
        Seq::<char>::empty()
    } else if root.last() == '/' {
        root
    } else {
        root + "/"@
    };
    assert(dir =~= head + name);
    lemma_name_under(head, name, "avalanchego"@);
    lemma_name_under(head, name, "plugins"@);
}

/// The plugins of the node lie beside its binary: the plugin directory of an
/// installed release is the one that is found from the path of its binary, for
/// every tag that holds no separator.
pub proof fn lemma_plugins_lie_beside_the_binary(
    decoder: DecoderKind,
    tag: Seq<char>,
    root: Seq<char>,
)
    requires
        forall|i: int| 0 <= i < tag.len() ==> tag[i] != '/',
    ensures
        spec_installed(Product::AvalancheGo, decoder, tag, root).plugins_dir == Some(
            spec_plugins_dir(
                spec_installed(Product::AvalancheGo, decoder, tag, root).binary_path,
            ),
        ),
{
    reveal_strlit("/");
    reveal_strlit("build");
    reveal_strlit("avalanchego-");
    reveal_strlit("avalanchego");
    let name = match decoder {
        DecoderKind::Zip => "build"@,
        DecoderKind::TarGzip => "avalanchego-"@ + tag,
    };
    assert(name.len() >= 5 && name[0] != '/');
    assert(name.last() != '/' && name[name.len() - 2] != '/') by {
        if decoder == DecoderKind::TarGzip {
            if tag.len() >= 2 {
                assert(name[name.len() - 2] == tag[tag.len() - 2]);
            }
            if tag.len() >= 1 {
                assert(name.last() == tag.last());
            }
        }
    }
    let dir = spec_install_dir(Product::AvalancheGo, decoder, tag, root);
    assert(dir == spec_join(root, name));
    assert(dir.len() >= name.len());
    assert(dir.last() == name.last());
    assert(dir[dir.len() - 2] == name[name.len() - 2]);
    let binary = "avalanchego"@;
    assert forall|i: int| 0 <= i < binary.len() implies binary[i] != '/' by {
        if i < 4 {
        } else if i < 8 {
        }
    }
    lemma_parent_of_joined(dir, binary);
}

/// A name that does not start at the root, under a directory whose path does
/// not end in a separator, lies behind the end of that path and one
/// separator.
proof fn lemma_name_under(head: Seq<char>, tail: Seq<char>, name: Seq<char>)
    requires
        tail.len() > 0,
        tail.last() != '/',
        !is_absolute(name),
    ensures
        ends_with(spec_join(head + tail, name), tail + "/"@ + name),
{
    let dir = head + tail;
    assert(dir.last() == tail.last());
    assert(spec_join(dir, name) =~= head + (tail + "/"@ + name));
    lemma_ends_with_tail(head, tail + "/"@ + name);
}

} // verus!
